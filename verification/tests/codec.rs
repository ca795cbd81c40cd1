use tuntap::codec::{accepted_count, frame_packet, strip_frame};
use tuntap::platform::Platform;

#[test]
fn frame_ipv4_payload_gets_inet_header() {
    // First byte 0x45: IPv4, high nibble 4.
    let payload = vec![0x45u8, 1, 2, 3];
    let frame = frame_packet(Platform::Macos, &payload);
    assert_eq!(frame.as_slice(), &[0, 0, 0, 2, 0x45, 1, 2, 3]);
}

#[test]
fn frame_ipv6_payload_gets_inet6_header() {
    // First byte 0x60: IPv6, high nibble 6.
    let payload = vec![0x60u8, 9];
    let frame = frame_packet(Platform::Macos, &payload);
    assert_eq!(frame.as_slice(), &[0, 0, 0, 10, 0x60, 9]);
}

#[test]
fn frame_headers_distinct_per_version() {
    let v4 = frame_packet(Platform::Macos, &vec![0x45u8]);
    let v6 = frame_packet(Platform::Macos, &vec![0x6Fu8]);
    assert_ne!(v4[3], v6[3]);
    assert_eq!(v4[0..3], [0, 0, 0]);
    assert_eq!(v6[0..3], [0, 0, 0]);
}

#[test]
fn low_nibble_six_is_not_ipv6() {
    // Only the high nibble decides: 0x46 is version 4.
    let frame = frame_packet(Platform::Macos, &vec![0x46u8]);
    assert_eq!(frame[3], 2);
}

#[test]
fn frame_linux_is_passthrough() {
    let payload = vec![0x60u8, 0, 0, 0, 2, 7];
    let frame = frame_packet(Platform::Linux, &payload);
    assert_eq!(frame, payload);
}

#[test]
fn accepted_count_discounts_header_never_negative() {
    assert_eq!(accepted_count(Platform::Macos, 0), 0);
    assert_eq!(accepted_count(Platform::Macos, 3), 0);
    assert_eq!(accepted_count(Platform::Macos, 4), 0);
    assert_eq!(accepted_count(Platform::Macos, 5), 1);
    assert_eq!(accepted_count(Platform::Macos, 1384), 1380);
    assert_eq!(accepted_count(Platform::Linux, 7), 7);
}

#[test]
fn strip_frame_drops_header() {
    let raw = vec![0u8, 0, 0, 2, 9, 8, 7];
    let mut out = vec![0u8; 16];
    let n = strip_frame(&raw, &mut out);
    assert_eq!(n, 3);
    assert_eq!(&out[..3], &[9, 8, 7]);
    assert_eq!(&out[3..], &[0u8; 13]);
}

#[test]
fn strip_short_frame_reports_zero_and_leaves_buffer() {
    let raw = vec![1u8, 2, 3];
    let mut out = vec![0x55u8; 8];
    let n = strip_frame(&raw, &mut out);
    assert_eq!(n, 0);
    assert_eq!(out, vec![0x55u8; 8]);
}

#[test]
fn strip_exact_header_reports_zero() {
    let raw = vec![0u8, 0, 0, 10];
    let mut out = vec![0x55u8; 8];
    let n = strip_frame(&raw, &mut out);
    assert_eq!(n, 0);
    assert_eq!(out, vec![0x55u8; 8]);
}

#[test]
fn frame_then_strip_roundtrip() {
    let payload = vec![0x45u8, 0xDE, 0xAD, 0xBE, 0xEF];
    let frame = frame_packet(Platform::Macos, &payload);
    let mut out = vec![0u8; 32];
    let n = strip_frame(&frame, &mut out);
    assert_eq!(n, payload.len());
    assert_eq!(&out[..n], payload.as_slice());
}
