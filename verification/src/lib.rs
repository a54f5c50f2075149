//! Typed compute-shader resources and the rules that tie them to a kernel.
//!
//! The crate holds the host-side logic of a GPU compute layer: how binding
//! layouts and binding sets are built and reconciled, how many bytes a
//! transfer moves, and how image rows are padded for the device and stripped
//! again. Talking to the device itself is left to the caller, who hands in
//! mapped bytes and carries out the commands that the library records.

pub mod bindings;
pub mod buffers;
pub mod descriptor_set;
pub mod entry_type;
pub mod future;
pub mod images;
pub mod kernel;
pub mod layout;
pub mod pixels;
pub mod program;
pub mod transfer;

pub use bindings::SetBindings;
pub use buffers::BufOps;
pub use buffers::GpuBuffer;
pub use buffers::GpuUniformBuffer;
pub use descriptor_set::DescriptorSet;
pub use entry_type::EntryType;
pub use entry_type::GpuBufferUsage;
pub use images::GpuConstImage;
pub use images::GpuImage;
pub use images::ImgOps;
pub use kernel::Kernel;
pub use layout::SetLayout;
pub use pixels::PixelInfo;
pub use program::Program;

pub use transfer::RowLayout;
