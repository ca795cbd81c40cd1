//! A user-space library for kernel TUN devices: the platform handshake that
//! creates the interface, the ifconfig arguments that bring it up, and the
//! per-packet framing that presents bare IP packets to the caller.

pub mod codec;
pub mod config;
pub mod device;
pub mod handshake;
pub mod names;
pub mod platform;
