use tuntap::device::{Tun, TunError};
use tuntap::handshake::linux_request;
use tuntap::platform::Platform;

#[test]
fn create_linux_index5_resolves_tun5() {
    // The kernel echoes the requested name back, zero-terminated; bytes
    // past the terminator need not be zero.
    let mut reply: Vec<u8> = Vec::new();
    reply.extend_from_slice(b"tun5");
    reply.push(0);
    while reply.len() < 16 {
        reply.push(0xAA);
    }
    let t = Tun::create(Platform::Linux, 5, 0, &reply).unwrap();
    assert_eq!(t.name().as_slice(), b"tun5");
    assert_eq!(t.as_raw_fd(), 0);
}

#[test]
fn create_macos_index5_resolves_utun5() {
    let t = Tun::create(Platform::Macos, 5, 0, &Vec::new()).unwrap();
    assert_eq!(t.name().as_slice(), b"utun5");
}

#[test]
fn create_macos_index0_resolves_utun0() {
    let t = Tun::create(Platform::Macos, 0, 3, &Vec::new()).unwrap();
    assert_eq!(t.name().as_slice(), b"utun0");
    assert_eq!(t.as_raw_fd(), 3);
}

#[test]
fn create_macos_large_index() {
    let t = Tun::create(Platform::Macos, 255, 0, &Vec::new()).unwrap();
    assert_eq!(t.name().as_slice(), b"utun255");
}

#[test]
fn create_linux_reply_without_zero_is_rejected() {
    let reply: Vec<u8> = vec![1u8; 16];
    let r = Tun::create(Platform::Linux, 5, 0, &reply);
    assert!(matches!(r, Err(TunError::BadName)));
}

#[test]
fn create_linux_echoed_request_resolves_requested_name() {
    // For every index: a kernel that assigns exactly the requested name
    // resolves to "tun<index>".
    for i in [0u8, 7, 10, 99, 100, 200, 255] {
        let req = linux_request(i);
        let t = Tun::create(Platform::Linux, i, 0, &req.ifr_name).unwrap();
        let expected = format!("tun{}", i);
        assert_eq!(t.name().as_slice(), expected.as_bytes());
    }
}
