//! Per-packet framing. On Platform Linux the handle carries bare IP
//! packets; on Platform Macos the kernel frames every packet with a 4-byte
//! big-endian address-family header that callers must never see.

use vstd::prelude::*;

use crate::names::push_all;
use crate::platform::Platform;

verus! {

/// Length of the per-packet address-family header on Platform Macos.
pub const AF_HEADER_LEN: usize = 4;

/// Address-family code the header carries for IPv4 payloads.
pub const AF_CODE_INET: u8 = 2;

/// Address-family code the header carries for IPv6 payloads.
pub const AF_CODE_INET6: u8 = 10;

/// Scratch capacity for one framed packet: the interface MTU with
/// generous slack, plus the 4-byte header.
pub const READ_SCRATCH: usize = 1600;

/// The 4-byte big-endian address-family header for a payload whose first
/// byte is `b0`: IP version 6 (high nibble 6) selects the IPv6 code, any
/// other version the IPv4 code.
pub open spec fn af_header_spec(b0: u8) -> Seq<u8> {
    if b0 >> 4 == 6 {
        seq![0u8, 0u8, 0u8, AF_CODE_INET6]
    } else {
        seq![0u8, 0u8, 0u8, AF_CODE_INET]
    }
}

/// What crosses the OS handle when a payload is sent: the payload itself
/// on Platform Linux, the header-prefixed frame on Platform Macos.
pub open spec fn wire_frame_spec(p: Platform, payload: Seq<u8>) -> Seq<u8>
    recommends
        payload.len() >= 1,
{
    match p {
        Platform::Linux => payload,
        Platform::Macos => af_header_spec(payload[0]) + payload,
    }
}

/// The payload inside one raw frame read from the OS handle on Platform
/// Macos: the frame minus its 4-byte header, or empty when the frame is
/// shorter than the header.
pub open spec fn unframe_spec(raw: Seq<u8>) -> Seq<u8> {
    if raw.len() < 4 {
        Seq::empty()
    } else {
        raw.skip(4)
    }
}

/// The byte count reported to the caller when the OS accepted `n` bytes
/// of the frame: `n` itself on Platform Linux; on Platform Macos the
/// header is discounted and the count never goes below zero.
pub open spec fn accepted_spec(p: Platform, n: int) -> int {
    match p {
        Platform::Linux => n,
        Platform::Macos => if n > 4 {
            n - 4
        } else {
            0
        },
    }
}

/// Builds the frame for `payload` as it crosses the OS handle.
pub fn frame_packet(p: Platform, payload: &Vec<u8>) -> (r: Vec<u8>)
    requires
        payload@.len() >= 1,
    ensures
        r@ == wire_frame_spec(p, payload@),
{
    let mut data: Vec<u8> = Vec::new();
    match p {
        Platform::Linux => {
            push_all(&mut data, payload);
            proof {
                assert(Seq::<u8>::empty() + payload@ =~= payload@);
            }
            data
        },
        Platform::Macos => {
            data.push(0);
            data.push(0);
            data.push(0);
            let b0 = payload[0];
            if b0 >> 4 == 6 {
                data.push(AF_CODE_INET6);
            } else {
                data.push(AF_CODE_INET);
            }
            proof {
                assert(data@ =~= af_header_spec(payload@[0]));
            }
            push_all(&mut data, payload);
            data
        },
    }
}

/// Recovers the payload from one raw frame: drops the 4-byte header and
/// copies the remainder into the front of `out`, reporting its length; a
/// frame shorter than the header reports 0 and leaves `out` untouched.
pub fn strip_frame(raw: &Vec<u8>, out: &mut Vec<u8>) -> (r: usize)
    requires
        4 <= raw@.len() ==> raw@.len() - 4 <= old(out)@.len(),
    ensures
        final(out)@.len() == old(out)@.len(),
        r as int == unframe_spec(raw@).len(),
        final(out)@.take(r as int) == unframe_spec(raw@),
        final(out)@.skip(r as int) == old(out)@.skip(r as int),
{
    if raw.len() < 4 {
        proof {
            assert(out@.take(0) =~= unframe_spec(raw@));
        }
        return 0;
    }
    let n = raw.len() - 4;
    let ghost base = out@;
    let mut i: usize = 0;
    while i < n
        invariant
            i <= n,
            n + 4 == raw@.len(),
            n + 4 <= usize::MAX,
            n <= out@.len(),
            out@.len() == base.len(),
            forall|j: int| 0 <= j < i ==> out@[j] == raw@[j + 4],
            forall|j: int| i <= j < out@.len() ==> out@[j] == base[j],
        decreases n - i,
    {
        let b = raw[i + 4];
        out.set(i, b);
        i = i + 1;
    }
    proof {
        assert(out@.take(n as int) =~= unframe_spec(raw@));
        assert(out@.skip(n as int) =~= base.skip(n as int));
    }
    n
}

/// The caller-visible accepted-byte count for a frame write the OS
/// reported as `n` bytes.
pub fn accepted_count(p: Platform, n: usize) -> (r: usize)
    ensures
        r as int == accepted_spec(p, n as int),
{
    match p {
        Platform::Linux => n,
        Platform::Macos => if n > 4 {
            n - 4
        } else {
            0
        },
    }
}

/// Round-trip law (Platform Macos): deframing the frame built for a
/// payload yields that payload, byte for byte; the header never reaches
/// the caller in either direction.
pub proof fn lemma_frame_roundtrip(payload: Seq<u8>)
    requires
        payload.len() >= 1,
    ensures
        unframe_spec(wire_frame_spec(Platform::Macos, payload)) == payload,
{
    let f = af_header_spec(payload[0]) + payload;
    assert(f.len() == 4 + payload.len());
    assert(f.skip(4) =~= payload);
}

/// Header law: an IPv6 payload (first-byte high nibble 6) and a payload
/// of any other version produce distinct headers, carrying the IPv6 and
/// IPv4 codes respectively.
pub proof fn lemma_af_header_distinct(b6: u8, b4: u8)
    requires
        b6 >> 4 == 6,
        b4 >> 4 != 6,
    ensures
        af_header_spec(b6)[3] == AF_CODE_INET6,
        af_header_spec(b4)[3] == AF_CODE_INET,
        af_header_spec(b6) != af_header_spec(b4),
{
    assert(af_header_spec(b6)[3] != af_header_spec(b4)[3]);
}

/// Pass-through law (Platform Linux): the frame handed to the OS handle
/// is the payload itself, byte for byte and in length, with nothing added
/// or removed, and the whole accepted count is reported.
pub proof fn lemma_linux_passthrough(payload: Seq<u8>)
    requires
        payload.len() >= 1,
    ensures
        wire_frame_spec(Platform::Linux, payload) == payload,
        accepted_spec(Platform::Linux, payload.len() as int) == payload.len(),
{
}

/// Accounting law: the reported count is never negative, never exceeds
/// what the OS accepted, and on Platform Macos a write of no more than
/// the header's 4 bytes reports 0.
pub proof fn lemma_accepted_count(p: Platform, n: int)
    requires
        0 <= n,
    ensures
        0 <= accepted_spec(p, n) <= n,
        p == Platform::Macos && n <= 4 ==> accepted_spec(p, n) == 0,
{
}

} // verus!
