//! The coarse category of a binding.

use vstd::prelude::*;

verus! {

/// What sort of resource a binding slot takes. A layout and a binding set
/// agree when their slots agree in this, position by position; neither the
/// slot index nor the element type of a buffer plays a part.
#[derive(Clone, Copy, Debug, PartialEq, Eq, Structural)]
pub enum EntryType {
    /// A storage buffer.
    Buffer,
    /// A uniform buffer.
    Uniform,
    /// An image that the shader only reads.
    ConstImage,
    /// An image that the shader writes.
    Image,
}

/// How a shader may use a storage buffer.
#[derive(Clone, Copy, Debug, PartialEq, Eq, Structural)]
pub enum GpuBufferUsage {
    /// The shader only reads the buffer.
    ReadOnly,
    /// The shader reads and writes the buffer.
    ReadWrite,
}

} // verus!
