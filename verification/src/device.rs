//! The tunnel device itself: an exclusively-owned OS handle, the
//! kernel-visible interface name, and the platform variant that governs
//! framing and configuration.

use vstd::prelude::*;

use crate::codec::{
    accepted_count, accepted_spec, frame_packet, strip_frame, unframe_spec, wire_frame_spec,
    READ_SCRATCH,
};
use crate::config::{addr_text, addr_text_spec, cidr_text, cidr_text_spec, mtu_text, mtu_text_spec};
use crate::names::{copy_bytes, copy_prefix, dec_digits, find_zero, pad_zeros, utun_name_spec, zero_pos};
use crate::platform::Platform;

verus! {

/// The device's failure modes. `Os` carries the kernel's error code from
/// a failed read, write or close; `BadName` reports a kernel name reply
/// with no terminating zero byte.
#[derive(Clone, Copy, Debug, PartialEq, Eq, Structural)]
pub enum TunError {
    Os(i32),
    BadName,
}

/// An open tunnel device.
pub struct Tun {
    fd: i32,
    if_name: Vec<u8>,
    platform: Platform,
}

/// Relies on nix::unistd::read: reads into the front of `buf` and returns
/// how many bytes arrived, at most `buf.len()`; bytes past that count
/// keep their old values. On failure the kernel's errno comes back.
#[verifier::external_body]
fn read_fd(fd: i32, buf: &mut Vec<u8>) -> (r: Result<usize, i32>)
    ensures
        final(buf)@.len() == old(buf)@.len(),
        r matches Ok(n) ==> n <= final(buf)@.len() && final(buf)@.skip(n as int) == old(buf)@.skip(
            n as int,
        ),
{
    match nix::unistd::read(fd, buf.as_mut_slice()) {
        Ok(n) => Ok(n),
        Err(e) => Err(e as i32),
    }
}

/// Relies on nix::unistd::write: returns how many leading bytes of `buf`
/// the kernel accepted, at most `buf.len()`. On failure the kernel's
/// errno comes back.
#[verifier::external_body]
fn write_fd(fd: i32, buf: &Vec<u8>) -> (r: Result<usize, i32>)
    ensures
        r matches Ok(n) ==> n <= buf@.len(),
{
    match nix::unistd::write(fd, buf.as_slice()) {
        Ok(n) => Ok(n),
        Err(e) => Err(e as i32),
    }
}

/// Relies on nix::unistd::close: gives the descriptor back to the kernel.
/// On failure the kernel's errno comes back.
#[verifier::external_body]
fn close_fd(fd: i32) -> (r: Result<(), i32>) {
    match nix::unistd::close(fd) {
        Ok(()) => Ok(()),
        Err(e) => Err(e as i32),
    }
}

impl Tun {
    /// The OS handle the device owns.
    pub closed spec fn spec_fd(&self) -> i32 {
        self.fd
    }

    /// The kernel-visible interface name, as bytes.
    pub closed spec fn spec_name(&self) -> Seq<u8> {
        self.if_name@
    }

    /// The platform variant the device was opened through.
    pub closed spec fn spec_platform(&self) -> Platform {
        self.platform
    }

    /// Wraps the handle the platform handshake produced into a device
    /// value. On Platform Linux, `reply` is the name field the kernel
    /// wrote back from the configuration ioctl: it is scanned to its
    /// first zero byte and that prefix becomes the interface name; a
    /// reply with no zero byte is rejected. On Platform Macos the kernel
    /// is not asked: the name is "utun<index>" by convention, an
    /// assumption about the unit the kernel assigned, not a guarantee.
    pub fn create(platform: Platform, index: u8, fd: i32, reply: &Vec<u8>) -> (r: Result<
        Tun,
        TunError,
    >)
        ensures
            r matches Ok(t) ==> t.spec_fd() == fd && t.spec_platform() == platform,
            platform == Platform::Macos ==> (r matches Ok(t) && t.spec_name() == utun_name_spec(
                index as nat,
            )),
            platform == Platform::Linux ==> (match r {
                Ok(t) => zero_pos(reply@) < reply@.len() && t.spec_name() == reply@.take(
                    zero_pos(reply@),
                ),
                Err(e) => e == TunError::BadName && zero_pos(reply@) == reply@.len(),
            }),
    {
        match platform {
            Platform::Linux => {
                match find_zero(reply) {
                    Some(i) => {
                        let name = copy_prefix(reply, i);
                        Ok(Tun { fd, if_name: name, platform })
                    },
                    None => Err(TunError::BadName),
                }
            },
            Platform::Macos => {
                let mut name: Vec<u8> = Vec::new();
                name.push(117);
                name.push(116);
                name.push(117);
                name.push(110);
                let mut d = dec_digits(index);
                name.append(&mut d);
                proof {
                    assert(name@ =~= utun_name_spec(index as nat));
                }
                Ok(Tun { fd, if_name: name, platform })
            },
        }
    }

    /// The raw OS handle, for the caller that performs the system calls
    /// the library does not.
    pub fn as_raw_fd(&self) -> (r: i32)
        ensures
            r == self.spec_fd(),
    {
        self.fd
    }

    /// The kernel-visible interface name.
    pub fn name(&self) -> (r: &Vec<u8>)
        ensures
            r@ == self.spec_name(),
    {
        &self.if_name
    }

    /// The platform variant the device was opened through.
    pub fn platform(&self) -> (r: Platform)
        ensures
            r == self.spec_platform(),
    {
        self.platform
    }

    /// Writes one payload to the device. What crosses the handle is the
    /// payload's wire frame -- the payload itself on Platform Linux, the
    /// header-prefixed frame on Platform Macos -- and the reported count
    /// discounts the header, never going below zero. How much the kernel
    /// accepts is its own; `Err` carries its errno.
    pub fn write(&self, buf: &Vec<u8>) -> (r: Result<usize, TunError>)
        requires
            buf@.len() >= 1,
        ensures
            r matches Ok(c) ==> c <= buf@.len() && (exists|n: int|
                0 <= n <= wire_frame_spec(self.spec_platform(), buf@).len() && c as int
                    == #[trigger] accepted_spec(self.spec_platform(), n)),
            r matches Err(e) ==> e matches TunError::Os(_),
    {
        let data = frame_packet(self.platform, buf);
        match write_fd(self.fd, &data) {
            Ok(n) => {
                let c = accepted_count(self.platform, n);
                proof {
                    assert(0 <= n as int <= wire_frame_spec(self.spec_platform(), buf@).len()
                        && c as int == accepted_spec(self.spec_platform(), n as int));
                }
                Ok(c)
            },
            Err(e) => Err(TunError::Os(e)),
        }
    }

    /// Reads one packet into the front of `buf`, reporting the payload
    /// length. On Platform Linux the bytes pass through bare. On Platform
    /// Macos the kernel's frame is read into scratch and its 4-byte
    /// header stripped: a frame shorter than the header reports 0, and
    /// `buf` keeps its old bytes past the reported length. What bytes
    /// arrive is the kernel's own; `Err` carries its errno.
    pub fn read(&self, buf: &mut Vec<u8>) -> (r: Result<usize, TunError>)
        requires
            self.spec_platform() == Platform::Macos ==> old(buf)@.len() >= READ_SCRATCH - 4,
        ensures
            final(buf)@.len() == old(buf)@.len(),
            r matches Ok(c) ==> c <= final(buf)@.len() && final(buf)@.skip(c as int) == old(
                buf,
            )@.skip(c as int) && (self.spec_platform() == Platform::Macos ==> c + 4 <= READ_SCRATCH
                && (exists|raw: Seq<u8>|
                raw.len() <= READ_SCRATCH as int && c as int == #[trigger] unframe_spec(raw).len()
                    && final(buf)@.take(c as int) == unframe_spec(raw))),
            r matches Err(e) ==> (e matches TunError::Os(_)) && (self.spec_platform()
                == Platform::Macos ==> final(buf)@ == old(buf)@),
    {
        match self.platform {
            Platform::Linux => {
                match read_fd(self.fd, buf) {
                    Ok(n) => Ok(n),
                    Err(e) => Err(TunError::Os(e)),
                }
            },
            Platform::Macos => {
                let mut scratch: Vec<u8> = Vec::new();
                pad_zeros(&mut scratch, READ_SCRATCH);
                match read_fd(self.fd, &mut scratch) {
                    Ok(n) => {
                        scratch.truncate(n);
                        let c = strip_frame(&scratch, buf);
                        proof {
                            assert(scratch@.len() <= READ_SCRATCH as int && c as int
                                == unframe_spec(scratch@).len() && buf@.take(c as int)
                                == unframe_spec(scratch@));
                        }
                        Ok(c)
                    },
                    Err(e) => Err(TunError::Os(e)),
                }
            },
        }
    }

    /// Releases the OS handle, consuming the device: the handle is given
    /// up exactly once. `Err` carries the kernel's errno.
    pub fn close(self) -> (r: Result<(), TunError>)
        ensures
            r matches Err(e) ==> e matches TunError::Os(_),
    {
        match close_fd(self.fd) {
            Ok(()) => Ok(()),
            Err(e) => Err(TunError::Os(e)),
        }
    }

    /// Arguments of the first configuration command invocation: the
    /// interface name followed by its address -- the CIDR form on
    /// Platform Linux; the local address and the fixed peer address
    /// "10.10.10.1" on Platform Macos.
    pub fn up_address_args(&self, self_id: u8) -> (r: Vec<Vec<u8>>)
        ensures
            r@.len() >= 2,
            r@[0]@ == self.spec_name(),
            self.spec_platform() == Platform::Linux ==> r@.len() == 2 && r@[1]@ == cidr_text_spec(
                self_id as nat,
            ),
            self.spec_platform() == Platform::Macos ==> r@.len() == 3 && r@[1]@ == addr_text_spec(
                self_id as nat,
            ) && r@[2]@ == addr_text_spec(1),
    {
        let mut args: Vec<Vec<u8>> = Vec::new();
        args.push(copy_bytes(&self.if_name));
        match self.platform {
            Platform::Linux => {
                args.push(cidr_text(self_id));
            },
            Platform::Macos => {
                args.push(addr_text(self_id));
                args.push(addr_text(1));
            },
        }
        args
    }

    /// Arguments of the second configuration command invocation: the
    /// interface name, the MTU directive with the canonical value, and
    /// the directive that marks the link administratively up.
    pub fn up_link_args(&self) -> (r: Vec<Vec<u8>>)
        ensures
            r@.len() == 4,
            r@[0]@ == self.spec_name(),
            r@[1]@ == seq![109u8, 116u8, 117u8],
            r@[2]@ == mtu_text_spec(),
            r@[3]@ == seq![117u8, 112u8],
    {
        let mut args: Vec<Vec<u8>> = Vec::new();
        args.push(copy_bytes(&self.if_name));
        let mut mtu_word: Vec<u8> = Vec::new();
        mtu_word.push(109);
        mtu_word.push(116);
        mtu_word.push(117);
        proof {
            assert(mtu_word@ =~= seq![109u8, 116u8, 117u8]);
        }
        args.push(mtu_word);
        args.push(mtu_text());
        let mut up_word: Vec<u8> = Vec::new();
        up_word.push(117);
        up_word.push(112);
        proof {
            assert(up_word@ =~= seq![117u8, 112u8]);
        }
        args.push(up_word);
        args
    }
}

} // verus!
