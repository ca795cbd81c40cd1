use tuntap::handshake::{
    control_request, control_sockaddr, linux_request, AF_SYSTEM, AF_SYS_CONTROL, CTLIOCGINFO,
    IFF_NO_PI, IFF_TUN, SOCKADDR_CTL_SIZE, SYSPROTO_CONTROL, TUNSETIFF,
};

#[test]
fn linux_request_carries_padded_name_and_flags() {
    let req = linux_request(5);
    assert_eq!(req.ifr_name.len(), 16);
    assert_eq!(&req.ifr_name[..4], b"tun5");
    assert_eq!(&req.ifr_name[4..], &[0u8; 12]);
    assert_eq!(req.ifr_flags, IFF_TUN | IFF_NO_PI);
    assert_eq!(req.ifr_flags, 0x1001);
}

#[test]
fn linux_request_three_digit_index() {
    let req = linux_request(200);
    assert_eq!(&req.ifr_name[..6], b"tun200");
    assert_eq!(&req.ifr_name[6..], &[0u8; 10]);
}

#[test]
fn ioctl_codes_are_the_known_constants() {
    assert_eq!(TUNSETIFF, 0x400454ca);
    assert_eq!(CTLIOCGINFO, 0xc0644e03);
    assert_eq!(SYSPROTO_CONTROL, 2);
}

#[test]
fn control_request_carries_padded_control_name() {
    let req = control_request();
    assert_eq!(req.ctl_id, 0);
    assert_eq!(req.ctl_name.len(), 96);
    let name = b"com.apple.net.utun_control";
    assert_eq!(&req.ctl_name[..name.len()], name);
    for b in &req.ctl_name[name.len()..] {
        assert_eq!(*b, 0);
    }
}

#[test]
fn control_sockaddr_unit_is_index_plus_one() {
    let addr = control_sockaddr(7, 5);
    assert_eq!(addr.sc_len, SOCKADDR_CTL_SIZE);
    assert_eq!(addr.sc_len, 32);
    assert_eq!(addr.sc_family, AF_SYSTEM);
    assert_eq!(addr.ss_sysaddr, AF_SYS_CONTROL);
    assert_eq!(addr.sc_id, 7);
    assert_eq!(addr.sc_unit, 6);
    assert_eq!(addr.sc_reserved, vec![0u32; 5]);
}
