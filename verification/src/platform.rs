//! The two host platform variants the library supports, selected by the
//! caller at build time.

use vstd::prelude::*;

verus! {

/// Which kernel facility the device was opened through, and therefore which
/// framing and configuration behaviour applies.
///
/// `Linux` is the tun-driver style: the device file is opened and configured
/// with a single ioctl, and packets cross the handle bare. `Macos` is the
/// kernel-control-socket style: the interface is created by connecting a
/// control socket, and every packet carries a 4-byte address-family header.
#[derive(Clone, Copy, Debug, PartialEq, Eq, Structural)]
pub enum Platform {
    Linux,
    Macos,
}

} // verus!
