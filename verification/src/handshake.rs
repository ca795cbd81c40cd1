//! The device-creation handshake: the request structures and constants
//! each platform's kernel facility is driven with, built and checked here
//! as plain values. The ioctl, socket and connect calls themselves live
//! with the caller that owns the raw OS interface.

use vstd::prelude::*;

use crate::names::{dec_digits, lemma_dec_digits_ascii, pad_spec, pad_zeros, tun_name_spec};

verus! {

/// Size of the interface-name field in the tun ioctl request.
pub const IFNAMSIZ: usize = 16;

/// Tunnel-mode flag: IP-level tunnel device.
pub const IFF_TUN: i16 = 0x0001;

/// Tunnel-mode flag: no extra packet-information header on the handle.
pub const IFF_NO_PI: i16 = 0x1000;

/// ioctl request code that configures the tun device file (Platform
/// Linux).
pub const TUNSETIFF: u64 = 0x400454ca;

/// ioctl request code that resolves a kernel control name to its numeric
/// id (Platform Macos).
pub const CTLIOCGINFO: u64 = 0xc0644e03;

/// Address family of the kernel control-socket facility.
pub const AF_SYSTEM: u8 = 32;

/// Subfamily selecting control sockets within `AF_SYSTEM`.
pub const AF_SYS_CONTROL: u16 = 2;

/// Socket protocol for kernel control sockets.
pub const SYSPROTO_CONTROL: i32 = 2;

/// Size of the control-name field in `ctl_info`.
pub const CTL_NAME_LEN: usize = 96;

/// Byte size of the C layout of `sockaddr_ctl`: length byte, family byte,
/// 16-bit subfamily, 32-bit id, 32-bit unit, five reserved 32-bit words.
pub const SOCKADDR_CTL_SIZE: u8 = 32;

/// The request handed to the tun driver's configuration ioctl: the
/// 16-byte interface-name field and the tunnel-mode flags.
#[allow(non_camel_case_types)]
pub struct ioctl_flags_data {
    pub ifr_name: Vec<u8>,
    pub ifr_flags: i16,
}

/// The control-id query: a 96-byte control-name field in, a numeric id
/// out.
#[allow(non_camel_case_types)]
pub struct ctl_info {
    pub ctl_id: u32,
    pub ctl_name: Vec<u8>,
}

/// The control-socket address whose connect call makes the kernel
/// instantiate a new interface.
#[allow(non_camel_case_types)]
pub struct sockaddr_ctl {
    pub sc_len: u8,
    pub sc_family: u8,
    pub ss_sysaddr: u16,
    pub sc_id: u32,
    pub sc_unit: u32,
    pub sc_reserved: Vec<u32>,
}

/// The well-known control name whose id is queried:
/// "com.apple.net.utun_control".
pub open spec fn utun_control_name_spec() -> Seq<u8> {
    seq![
        99u8,
        111u8,
        109u8,
        46u8,
        97u8,
        112u8,
        112u8,
        108u8,
        101u8,
        46u8,
        110u8,
        101u8,
        116u8,
        46u8,
        117u8,
        116u8,
        117u8,
        110u8,
        95u8,
        99u8,
        111u8,
        110u8,
        116u8,
        114u8,
        111u8,
        108u8,
    ]
}

/// The configuration ioctl request for index `i`: the name "tun<i>"
/// zero-padded into the 16-byte field, and flags selecting plain tunnel
/// mode with no packet-information header.
pub fn linux_request(i: u8) -> (r: ioctl_flags_data)
    ensures
        r.ifr_name@ == pad_spec(tun_name_spec(i as nat), IFNAMSIZ as int),
        r.ifr_name@.len() == IFNAMSIZ,
        r.ifr_flags == IFF_TUN | IFF_NO_PI,
{
    let mut buf: Vec<u8> = Vec::new();
    buf.push(116);
    buf.push(117);
    buf.push(110);
    let mut d = dec_digits(i);
    buf.append(&mut d);
    proof {
        lemma_dec_digits_ascii(i as nat);
        assert(buf@ =~= tun_name_spec(i as nat));
        assert(buf@.len() <= IFNAMSIZ);
    }
    pad_zeros(&mut buf, IFNAMSIZ);
    ioctl_flags_data { ifr_name: buf, ifr_flags: IFF_TUN | IFF_NO_PI }
}

/// The control-id query request: id zero, the well-known control name
/// zero-padded into the 96-byte field.
pub fn control_request() -> (r: ctl_info)
    ensures
        r.ctl_id == 0,
        r.ctl_name@ == pad_spec(utun_control_name_spec(), CTL_NAME_LEN as int),
        r.ctl_name@.len() == CTL_NAME_LEN,
{
    let mut buf: Vec<u8> = Vec::new();
    buf.push(99);
    buf.push(111);
    buf.push(109);
    buf.push(46);
    buf.push(97);
    buf.push(112);
    buf.push(112);
    buf.push(108);
    buf.push(101);
    buf.push(46);
    buf.push(110);
    buf.push(101);
    buf.push(116);
    buf.push(46);
    buf.push(117);
    buf.push(116);
    buf.push(117);
    buf.push(110);
    buf.push(95);
    buf.push(99);
    buf.push(111);
    buf.push(110);
    buf.push(116);
    buf.push(114);
    buf.push(111);
    buf.push(108);
    proof {
        assert(buf@ =~= utun_control_name_spec());
    }
    pad_zeros(&mut buf, CTL_NAME_LEN);
    ctl_info { ctl_id: 0, ctl_name: buf }
}

/// The connect address for control id `id` and interface index `i`: the
/// C layout size, the fixed family/subfamily pair, and unit `i + 1` --
/// the unit the kernel derives the interface's number from.
pub fn control_sockaddr(id: u32, i: u8) -> (r: sockaddr_ctl)
    ensures
        r.sc_len == SOCKADDR_CTL_SIZE,
        r.sc_family == AF_SYSTEM,
        r.ss_sysaddr == AF_SYS_CONTROL,
        r.sc_id == id,
        r.sc_unit == i as u32 + 1,
        r.sc_reserved@ == Seq::new(5, |j: int| 0u32),
{
    let mut zeros: Vec<u32> = Vec::new();
    zeros.push(0);
    zeros.push(0);
    zeros.push(0);
    zeros.push(0);
    zeros.push(0);
    proof {
        assert(zeros@ =~= Seq::new(5, |j: int| 0u32));
    }
    sockaddr_ctl {
        sc_len: SOCKADDR_CTL_SIZE,
        sc_family: AF_SYSTEM,
        ss_sysaddr: AF_SYS_CONTROL,
        sc_id: id,
        sc_unit: i as u32 + 1,
        sc_reserved: zeros,
    }
}

} // verus!
