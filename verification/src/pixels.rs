//! The pixel formats that images can have.
//!
//! The set is closed: each format is a type of its own, and what the device
//! needs to know of it is read off the type.

use vstd::prelude::*;

verus! {

/// Device format of a texture.
#[derive(Clone, Copy, Debug, PartialEq, Eq, Structural)]
pub enum TextureFormat {
    /// Four 8-bit channels, unsigned integers in the shader.
    Rgba8Uint,
    /// Four 8-bit channels, `[0, 255]` read as `[0, 1]` in the shader.
    Rgba8Unorm,
    /// Four 8-bit channels, signed integers in the shader.
    Rgba8Sint,
    /// Four 8-bit channels, `[-127, 127]` read as `[-1, 1]` in the shader.
    Rgba8Snorm,
}

/// How a shader samples a texture that it only reads.
#[derive(Clone, Copy, Debug, PartialEq, Eq, Structural)]
pub enum TextureSampleType {
    /// Unsigned integers.
    Uint,
    /// Signed integers.
    Sint,
    /// Normalised values, read without filtering.
    Unfilterable,
}

impl TextureFormat {
    /// Bytes that one pixel of the format takes.
    pub open spec fn block_size(self) -> int {
        4
    }
}

/// What the library knows of a pixel format.
pub trait PixelInfo {
    /// Bytes that one pixel takes.
    spec fn spec_byte_size() -> int;

    /// The device format of an image of such pixels.
    spec fn spec_format() -> TextureFormat;

    /// How a shader samples an image of such pixels.
    spec fn spec_texture_sample() -> TextureSampleType;

    /// Bytes that one pixel takes: the size of a pixel of the device format.
    fn byte_size() -> (size: usize)
        ensures
            size == Self::spec_byte_size(),
            size == Self::spec_format().block_size(),
            1 <= size <= 8,
    ;

    /// The device format of an image of such pixels.
    fn format() -> (format: TextureFormat)
        ensures
            format == Self::spec_format(),
    ;

    /// How a shader samples an image of such pixels.
    fn texture_sample() -> (sample: TextureSampleType)
        ensures
            sample == Self::spec_texture_sample(),
    ;
}

/// Red, green, blue and alpha channels of 8 bits each, unsigned in the shader.
pub struct Rgba8Uint;

/// Red, green, blue and alpha channels of 8 bits each; `[0, 255]` becomes
/// `[0, 1]` in the shader.
pub struct Rgba8UintNorm;

/// Red, green, blue and alpha channels of 8 bits each, signed in the shader.
pub struct Rgba8Sint;

/// Red, green, blue and alpha channels of 8 bits each; `[-127, 127]` becomes
/// `[-1, 1]` in the shader.
pub struct Rgba8SintNorm;

impl PixelInfo for Rgba8Uint {
    open spec fn spec_byte_size() -> int {
        4
    }

    open spec fn spec_format() -> TextureFormat {
        TextureFormat::Rgba8Uint
    }

    open spec fn spec_texture_sample() -> TextureSampleType {
        TextureSampleType::Uint
    }

    fn byte_size() -> (size: usize) {
        4
    }

    fn format() -> (format: TextureFormat) {
        TextureFormat::Rgba8Uint
    }

    fn texture_sample() -> (sample: TextureSampleType) {
        TextureSampleType::Uint
    }
}

impl PixelInfo for Rgba8UintNorm {
    open spec fn spec_byte_size() -> int {
        4
    }

    open spec fn spec_format() -> TextureFormat {
        TextureFormat::Rgba8Unorm
    }

    open spec fn spec_texture_sample() -> TextureSampleType {
        TextureSampleType::Unfilterable
    }

    fn byte_size() -> (size: usize) {
        4
    }

    fn format() -> (format: TextureFormat) {
        TextureFormat::Rgba8Unorm
    }

    fn texture_sample() -> (sample: TextureSampleType) {
        TextureSampleType::Unfilterable
    }
}

impl PixelInfo for Rgba8Sint {
    open spec fn spec_byte_size() -> int {
        4
    }

    open spec fn spec_format() -> TextureFormat {
        TextureFormat::Rgba8Sint
    }

    open spec fn spec_texture_sample() -> TextureSampleType {
        TextureSampleType::Sint
    }

    fn byte_size() -> (size: usize) {
        4
    }

    fn format() -> (format: TextureFormat) {
        TextureFormat::Rgba8Sint
    }

    fn texture_sample() -> (sample: TextureSampleType) {
        TextureSampleType::Sint
    }
}

impl PixelInfo for Rgba8SintNorm {
    open spec fn spec_byte_size() -> int {
        4
    }

    open spec fn spec_format() -> TextureFormat {
        TextureFormat::Rgba8Snorm
    }

    open spec fn spec_texture_sample() -> TextureSampleType {
        TextureSampleType::Unfilterable
    }

    fn byte_size() -> (size: usize) {
        4
    }

    fn format() -> (format: TextureFormat) {
        TextureFormat::Rgba8Snorm
    }

    fn texture_sample() -> (sample: TextureSampleType) {
        TextureSampleType::Unfilterable
    }
}

} // verus!
