//! Error taxonomy of the device-path engine.

use vstd::prelude::*;

verus! {

/// A local, recoverable failure reported by the device-path engine.
#[derive(Debug, Clone, Copy, PartialEq, Eq, Structural)]
pub enum DevicePathError {
    /// Fewer than 4 bytes were available where a node header was expected,
    /// or a node's declared extent runs past the end of the buffer.
    TruncatedHeader,
    /// A node header declares a total length smaller than the 4-byte header.
    InvalidLength,
    /// A payload longer than 65531 bytes cannot fit beside the header in the
    /// 16-bit length field.
    PayloadTooLarge,
    /// A typed payload view was requested that is inconsistent with the
    /// node's tag, or a tag was supplied that cannot stand as a
    /// payload-bearing node.
    WrongShapeForTag,
}

} // verus!
