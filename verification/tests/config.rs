use tuntap::device::Tun;
use tuntap::platform::Platform;

#[test]
fn address_args_linux_use_cidr_with_self_id() {
    let mut reply: Vec<u8> = b"tun5".to_vec();
    while reply.len() < 16 {
        reply.push(0);
    }
    let t = Tun::create(Platform::Linux, 5, 0, &reply).unwrap();
    let args = t.up_address_args(7);
    assert_eq!(args.len(), 2);
    assert_eq!(args[0].as_slice(), b"tun5");
    assert_eq!(args[1].as_slice(), b"10.10.10.7/24");
}

#[test]
fn address_args_macos_use_local_and_fixed_peer() {
    let t = Tun::create(Platform::Macos, 5, 0, &Vec::new()).unwrap();
    let args = t.up_address_args(7);
    assert_eq!(args.len(), 3);
    assert_eq!(args[0].as_slice(), b"utun5");
    assert_eq!(args[1].as_slice(), b"10.10.10.7");
    assert_eq!(args[2].as_slice(), b"10.10.10.1");
}

#[test]
fn address_args_contain_self_id_literal() {
    let t = Tun::create(Platform::Macos, 0, 0, &Vec::new()).unwrap();
    let args = t.up_address_args(7);
    let joined: Vec<u8> = args.concat();
    let needle = b"10.10.10.7";
    let found = joined.windows(needle.len()).any(|w| w == needle);
    assert!(found);
}

#[test]
fn link_args_set_mtu_and_up() {
    let t = Tun::create(Platform::Macos, 3, 0, &Vec::new()).unwrap();
    let args = t.up_link_args();
    assert_eq!(args.len(), 4);
    assert_eq!(args[0].as_slice(), b"utun3");
    assert_eq!(args[1].as_slice(), b"mtu");
    assert_eq!(args[2].as_slice(), b"1380");
    assert_eq!(args[3].as_slice(), b"up");
}
