//! Handles of images on the device, and the checks and row arithmetic of
//! their transfers.
//!
//! The logical view of an image has no padding: it is `height` rows of
//! `width` pixels. Padding exists only in the staging buffer of a transfer.

use crate::bindings::BindingResource;
use crate::buffers::BufferError;
use crate::pixels::PixelInfo;
use crate::transfer::copy_prefix;
use crate::transfer::insert_padding;
use crate::transfer::overwrite;
use crate::transfer::pad_rows;
use crate::transfer::padded_row_bytes;
use crate::transfer::strip_padding;
use crate::transfer::strip_rows;
use crate::transfer::RowLayout;
use std::marker::PhantomData;
use vstd::prelude::*;
use vstd::slice::slice_subrange;

verus! {

/// Why a read of an image failed.
#[derive(Clone, Copy, Debug, PartialEq, Eq, Structural)]
pub enum ImageOutputError {
    /// The device could not hand over the staging buffer.
    BufferError(BufferError),
    /// The output cannot take the whole image.
    BufferTooSmall {
        /// Bytes of the image.
        required: usize,
        /// Bytes of the output.
        current: usize,
    },
}

/// Why a write to an image was refused.
#[derive(Clone, Copy, Debug, PartialEq, Eq, Structural)]
pub enum ImageInputError {
    /// The input is not a whole number of pixels.
    NotIntegerPixelNumber,
    /// The input is a whole number of pixels, but not of rows.
    NotIntegerRowNumber,
}

/// The part of an input that a write sends to the device.
#[derive(Clone, Copy, Debug)]
pub struct ImageWrite<'a> {
    /// The bytes to upload: whole rows, without padding.
    pub data: &'a [u8],
    /// Pixels in a row.
    pub width: u32,
    /// Rows that are written.
    pub height: u32,
}

/// Bytes of the logical view of an image.
pub open spec fn image_bytes(width: int, height: int, bytes_per_pixel: int) -> int {
    bytes_per_pixel * width * height
}

/// Bytes of the staging buffer for an image: its rows, each padded to the
/// device's row alignment.
pub open spec fn staging_bytes(width: int, height: int, bytes_per_pixel: int) -> int {
    padded_row_bytes(width * bytes_per_pixel, 256) * height
}

/// The sizes that a handle accepts: a row holds a pixel at least, and the
/// staging buffer of the image can be addressed with 32 bits.
pub open spec fn valid_dimensions(width: u32, height: u32, bytes_per_pixel: int) -> bool {
    &&& 0 < width
    &&& 1 <= bytes_per_pixel <= 8
    &&& width * bytes_per_pixel + 256 <= u32::MAX
    &&& staging_bytes(width as int, height as int, bytes_per_pixel) <= u32::MAX
}

/// Rows that a write of `len` bytes fills, where a row takes `row_bytes` and
/// the image has `height` rows: all the rows offered, or all the rows of the
/// image where more are offered.
pub open spec fn rows_written(len: int, row_bytes: int, height: int) -> int {
    if len < row_bytes * height {
        len / row_bytes
    } else {
        height
    }
}

/// What a write of `len` bytes to an image gives: the refusal, or nothing
/// where the input is accepted.
pub open spec fn input_error(len: int, width: int, bytes_per_pixel: int) -> Option<
    ImageInputError,
> {
    if len % bytes_per_pixel != 0 {
        Some(ImageInputError::NotIntegerPixelNumber)
    } else if len % (bytes_per_pixel * width) != 0 {
        Some(ImageInputError::NotIntegerRowNumber)
    } else {
        None
    }
}

/// Valid dimensions keep the image within its staging buffer, and that
/// within 32 bits.
pub proof fn lemma_valid_dimensions(width: u32, height: u32, bytes_per_pixel: int)
    requires
        valid_dimensions(width, height, bytes_per_pixel),
    ensures
        0 < width * bytes_per_pixel <= padded_row_bytes(width * bytes_per_pixel, 256),
        0 <= image_bytes(width as int, height as int, bytes_per_pixel) <= staging_bytes(
            width as int,
            height as int,
            bytes_per_pixel,
        ),
        image_bytes(width as int, height as int, bytes_per_pixel) == (width * bytes_per_pixel)
            * height,
        0 <= width * height <= image_bytes(width as int, height as int, bytes_per_pixel),
{
    let unpadded = width * bytes_per_pixel;
    assert(0 < unpadded) by (nonlinear_arith)
        requires
            unpadded == width * bytes_per_pixel,
            0 < width,
            1 <= bytes_per_pixel,
    ;
    crate::transfer::lemma_row_is_aligned(unpadded, 256);
    let padded = padded_row_bytes(unpadded, 256);
    assert(0 <= unpadded * height <= padded * height) by (nonlinear_arith)
        requires
            0 < unpadded <= padded,
            0 <= height,
    ;
    assert(bytes_per_pixel * width * height == unpadded * height) by (nonlinear_arith)
        requires
            unpadded == width * bytes_per_pixel,
    ;
    assert(0 <= width * height <= bytes_per_pixel * width * height) by (nonlinear_arith)
        requires
            0 < width,
            0 <= height,
            1 <= bytes_per_pixel,
    ;
}

/// Tells whether a handle accepts the given sizes.
pub fn check_dimensions(width: u32, height: u32, bytes_per_pixel: usize) -> (valid: bool)
    ensures
        valid == valid_dimensions(width, height, bytes_per_pixel as int),
{
    if width == 0 || bytes_per_pixel < 1 || bytes_per_pixel > 8 {
        return false;
    }
    assert(width * bytes_per_pixel <= u32::MAX * 8) by (nonlinear_arith)
        requires
            width <= u32::MAX,
            bytes_per_pixel <= 8,
    ;
    let unpadded: u64 = (width as u64) * (bytes_per_pixel as u64);
    if unpadded + 256 > u32::MAX as u64 {
        return false;
    }
    let layout = RowLayout::for_device(width, bytes_per_pixel as u32);
    layout.staging_size(height) <= u32::MAX as u64
}

/// Writing the bytes of a whole image through a staging buffer and reading
/// the staging buffer back gives the bytes unchanged: the input is accepted,
/// all its rows are written, and stripping undoes the padding, whatever the
/// width, the height and the size of a pixel.
pub proof fn lemma_image_round_trip(bytes: Seq<u8>, width: u32, height: u32, bytes_per_pixel: int)
    requires
        valid_dimensions(width, height, bytes_per_pixel),
        bytes.len() == image_bytes(width as int, height as int, bytes_per_pixel),
    ensures
        input_error(bytes.len() as int, width as int, bytes_per_pixel) is None,
        rows_written(bytes.len() as int, bytes_per_pixel * width, height as int) == height,
        strip_rows(
            pad_rows(
                bytes.take(bytes_per_pixel * width * height),
                width * bytes_per_pixel,
                padded_row_bytes(width * bytes_per_pixel, 256),
            ),
            width * bytes_per_pixel,
            padded_row_bytes(width * bytes_per_pixel, 256),
            height as int,
        ) == bytes,
{
    lemma_valid_dimensions(width, height, bytes_per_pixel);
    let unpadded = width * bytes_per_pixel;
    let padded = padded_row_bytes(unpadded, 256);
    let len = bytes.len() as int;
    assert(bytes_per_pixel * width == unpadded) by (nonlinear_arith)
        requires
            unpadded == width * bytes_per_pixel,
    ;
    assert(len == (width * height) * bytes_per_pixel + 0) by (nonlinear_arith)
        requires
            len == bytes_per_pixel * width * height,
    ;
    vstd::arithmetic::div_mod::lemma_fundamental_div_mod_converse(
        len,
        bytes_per_pixel,
        width * height,
        0,
    );
    assert(len == height * unpadded + 0) by (nonlinear_arith)
        requires
            len == bytes_per_pixel * width * height,
            unpadded == width * bytes_per_pixel,
    ;
    vstd::arithmetic::div_mod::lemma_fundamental_div_mod_converse(len, unpadded, height as int, 0);
    assert(bytes.take(len) =~= bytes);
    crate::transfer::lemma_strip_undoes_pad(bytes, unpadded, padded);
}

/// Checks an input against an image of the given shape and picks the rows
/// that a write sends: all of the input where it has fewer rows than the
/// image, else its leading rows, as many as the image has.
pub fn plan_write<'a>(buf: &'a [u8], width: u32, height: u32, bytes_per_pixel: usize) -> (outcome:
    Result<ImageWrite<'a>, ImageInputError>)
    requires
        valid_dimensions(width, height, bytes_per_pixel as int),
    ensures
        outcome is Err <==> input_error(buf@.len() as int, width as int, bytes_per_pixel as int)
            is Some,
        outcome is Err ==> Some(outcome->Err_0) == input_error(
            buf@.len() as int,
            width as int,
            bytes_per_pixel as int,
        ),
        outcome is Ok ==> {
            &&& outcome->Ok_0.width == width
            &&& outcome->Ok_0.height == rows_written(
                buf@.len() as int,
                bytes_per_pixel * width,
                height as int,
            )
            &&& outcome->Ok_0.data@ == buf@.take(bytes_per_pixel * width * outcome->Ok_0.height)
            &&& outcome->Ok_0.data@.len() == bytes_per_pixel * width * outcome->Ok_0.height
            &&& outcome->Ok_0.height <= height
        },
{
    proof {
        lemma_valid_dimensions(width, height, bytes_per_pixel as int);
        assert(bytes_per_pixel * width == width * bytes_per_pixel) by (nonlinear_arith);
    }
    let row_bytes: usize = bytes_per_pixel * (width as usize);
    if buf.len() % bytes_per_pixel != 0 {
        return Err(ImageInputError::NotIntegerPixelNumber);
    }
    if buf.len() % row_bytes != 0 {
        return Err(ImageInputError::NotIntegerRowNumber);
    }
    let whole: usize = row_bytes * (height as usize);
    if buf.len() < whole {
        let rows: usize = buf.len() / row_bytes;
        proof {
            vstd::arithmetic::div_mod::lemma_fundamental_div_mod(
                buf@.len() as int,
                row_bytes as int,
            );
            assert(rows < height && row_bytes * rows == bytes_per_pixel * width * rows)
                by (nonlinear_arith)
                requires
                    buf@.len() == row_bytes * rows + 0,
                    buf@.len() < row_bytes * height,
                    0 < row_bytes,
                    row_bytes == bytes_per_pixel * width,
            ;
            assert(buf@.take(buf@.len() as int) =~= buf@);
        }
        Ok(ImageWrite { data: buf, width, height: rows as u32 })
    } else {
        proof {
            assert(row_bytes * height == bytes_per_pixel * width * height) by (nonlinear_arith)
                requires
                    row_bytes == bytes_per_pixel * width,
            ;
        }
        Ok(ImageWrite { data: slice_subrange(buf, 0, whole), width, height })
    }
}

impl<'a> ImageWrite<'a> {
    /// Number of pixels that the write sends.
    pub fn pixels(&self) -> (count: u64)
        ensures
            count == self.width * self.height,
    {
        assert(self.width * self.height <= u32::MAX * u32::MAX) by (nonlinear_arith)
            requires
                self.width <= u32::MAX,
                self.height <= u32::MAX,
        ;
        (self.width as u64) * (self.height as u64)
    }
}

/// What writable and read-only images have in common.
pub trait ImgOps: Sized {
    /// The handle that names the texture on the device.
    spec fn spec_id(&self) -> u64;

    /// Pixels in a row.
    spec fn spec_width(&self) -> u32;

    /// Number of rows.
    spec fn spec_height(&self) -> u32;

    /// Bytes of one pixel.
    spec fn spec_bytes_per_pixel() -> int;

    /// Width and height of the image.
    fn dimensions(&self) -> (dimensions: (u32, u32))
        ensures
            dimensions == (self.spec_width(), self.spec_height()),
            valid_dimensions(self.spec_width(), self.spec_height(), Self::spec_bytes_per_pixel()),
    ;

    /// A reference to the full view of the image, for a binding.
    fn as_binding_resource(&self) -> (resource: BindingResource)
        ensures
            resource == BindingResource::TextureView(self.spec_id()),
    ;

    /// The handle of an empty image of the given size.
    fn new(id: u64, width: u32, height: u32) -> (image: Self)
        requires
            valid_dimensions(width, height, Self::spec_bytes_per_pixel()),
        ensures
            image.spec_id() == id,
            image.spec_width() == width,
            image.spec_height() == height,
    ;

    /// The handle of an image of the given size that holds `data`, which is
    /// exactly the bytes of its pixels, row by row.
    fn from_bytes(id: u64, data: &[u8], width: u32, height: u32) -> (image: Self)
        requires
            valid_dimensions(width, height, Self::spec_bytes_per_pixel()),
            data@.len() == image_bytes(width as int, height as int, Self::spec_bytes_per_pixel()),
        ensures
            image.spec_id() == id,
            image.spec_width() == width,
            image.spec_height() == height,
    ;
}

/// A two-dimensional image of pixels of type `P` that a shader writes.
pub struct GpuImage<P: PixelInfo> {
    id: u64,
    width: u32,
    height: u32,
    pixel: PhantomData<P>,
}

/// A two-dimensional image of pixels of type `P` that a shader only reads.
pub struct GpuConstImage<P: PixelInfo> {
    id: u64,
    width: u32,
    height: u32,
    pixel: PhantomData<P>,
}

impl<P: PixelInfo> GpuImage<P> {
    #[verifier::type_invariant]
    closed spec fn valid(self) -> bool {
        valid_dimensions(self.width, self.height, P::spec_byte_size())
    }
}

impl<P: PixelInfo> GpuConstImage<P> {
    #[verifier::type_invariant]
    closed spec fn valid(self) -> bool {
        valid_dimensions(self.width, self.height, P::spec_byte_size())
    }
}

impl<P: PixelInfo> ImgOps for GpuImage<P> {
    closed spec fn spec_id(&self) -> u64 {
        self.id
    }

    closed spec fn spec_width(&self) -> u32 {
        self.width
    }

    closed spec fn spec_height(&self) -> u32 {
        self.height
    }

    open spec fn spec_bytes_per_pixel() -> int {
        P::spec_byte_size()
    }

    fn dimensions(&self) -> (dimensions: (u32, u32)) {
        proof {
            use_type_invariant(self);
        }
        (self.width, self.height)
    }

    fn as_binding_resource(&self) -> (resource: BindingResource) {
        BindingResource::TextureView(self.id)
    }

    fn new(id: u64, width: u32, height: u32) -> (image: Self) {
        GpuImage { id, width, height, pixel: PhantomData }
    }

    fn from_bytes(id: u64, data: &[u8], width: u32, height: u32) -> (image: Self) {
        GpuImage { id, width, height, pixel: PhantomData }
    }
}

impl<P: PixelInfo> ImgOps for GpuConstImage<P> {
    closed spec fn spec_id(&self) -> u64 {
        self.id
    }

    closed spec fn spec_width(&self) -> u32 {
        self.width
    }

    closed spec fn spec_height(&self) -> u32 {
        self.height
    }

    open spec fn spec_bytes_per_pixel() -> int {
        P::spec_byte_size()
    }

    fn dimensions(&self) -> (dimensions: (u32, u32)) {
        proof {
            use_type_invariant(self);
        }
        (self.width, self.height)
    }

    fn as_binding_resource(&self) -> (resource: BindingResource) {
        BindingResource::TextureView(self.id)
    }

    fn new(id: u64, width: u32, height: u32) -> (image: Self) {
        GpuConstImage { id, width, height, pixel: PhantomData }
    }

    fn from_bytes(id: u64, data: &[u8], width: u32, height: u32) -> (image: Self) {
        GpuConstImage { id, width, height, pixel: PhantomData }
    }
}

/// The row layout of a staging buffer for an image of the given shape.
pub fn staging_layout(width: u32, height: u32, bytes_per_pixel: usize) -> (layout: RowLayout)
    requires
        valid_dimensions(width, height, bytes_per_pixel as int),
    ensures
        layout.wf(),
        layout.is_for(width * bytes_per_pixel, 256),
{
    proof {
        lemma_valid_dimensions(width, height, bytes_per_pixel as int);
    }
    RowLayout::for_device(width, bytes_per_pixel as u32)
}

/// Strips the padding of a staged image and copies its pixels to the start
/// of `buf`, which has to take them all.
pub fn read_rows(
    staged: &[u8],
    buf: &mut Vec<u8>,
    width: u32,
    height: u32,
    bytes_per_pixel: usize,
) -> (outcome: Result<usize, ImageOutputError>)
    requires
        valid_dimensions(width, height, bytes_per_pixel as int),
        staged@.len() == staging_bytes(width as int, height as int, bytes_per_pixel as int),
    ensures
        outcome is Ok <==> old(buf)@.len() >= image_bytes(
            width as int,
            height as int,
            bytes_per_pixel as int,
        ),
        outcome is Ok ==> {
            &&& outcome->Ok_0 == width * height
            &&& final(buf)@ == overwrite(
                old(buf)@,
                strip_rows(
                    staged@,
                    width * bytes_per_pixel,
                    padded_row_bytes(width * bytes_per_pixel, 256),
                    height as int,
                ),
            )
        },
        outcome is Err ==> {
            &&& final(buf)@ == old(buf)@
            &&& outcome->Err_0 == (ImageOutputError::BufferTooSmall {
                required: image_bytes(width as int, height as int, bytes_per_pixel as int) as usize,
                current: old(buf)@.len() as usize,
            })
        },
{
    proof {
        lemma_valid_dimensions(width, height, bytes_per_pixel as int);
        assert(bytes_per_pixel * width == width * bytes_per_pixel) by (nonlinear_arith);
    }
    let row_bytes: usize = bytes_per_pixel * (width as usize);
    let required: usize = row_bytes * (height as usize);
    if buf.len() < required {
        return Err(ImageOutputError::BufferTooSmall { required, current: buf.len() });
    }
    let layout = staging_layout(width, height, bytes_per_pixel);
    let pixels = strip_padding(staged, &layout, height);
    let copied: usize = copy_prefix(buf, pixels.as_slice());
    Ok((width as usize) * (height as usize))
}

impl<P: PixelInfo> GpuImage<P> {
    /// Bytes of the image's pixels.
    pub fn size(&self) -> (size: usize)
        ensures
            size == image_bytes(
                self.spec_width() as int,
                self.spec_height() as int,
                P::spec_byte_size(),
            ),
    {
        proof {
            use_type_invariant(self);
            lemma_valid_dimensions(self.width, self.height, P::spec_byte_size());
            assert(P::spec_byte_size() * self.width == self.width * P::spec_byte_size())
                by (nonlinear_arith);
        }
        P::byte_size() * (self.width as usize) * (self.height as usize)
    }

    /// How the rows of the image lie in a staging buffer.
    pub fn staging_layout(&self) -> (layout: RowLayout)
        ensures
            layout.wf(),
            layout.is_for(self.spec_width() * P::spec_byte_size(), 256),
    {
        proof {
            use_type_invariant(self);
        }
        staging_layout(self.width, self.height, P::byte_size())
    }

    /// Bytes of the staging buffer that a transfer of the image needs.
    pub fn staging_size(&self) -> (size: u64)
        ensures
            size == staging_bytes(
                self.spec_width() as int,
                self.spec_height() as int,
                P::spec_byte_size(),
            ),
    {
        proof {
            use_type_invariant(self);
        }
        let layout = staging_layout(self.width, self.height, P::byte_size());
        layout.staging_size(self.height)
    }

    /// Tells whether an output of `current` bytes can take the image.
    pub fn check_output(&self, current: usize) -> (outcome: Result<(), ImageOutputError>)
        ensures
            outcome is Ok <==> current >= image_bytes(
                self.spec_width() as int,
                self.spec_height() as int,
                P::spec_byte_size(),
            ),
            outcome is Err ==> outcome->Err_0 == (ImageOutputError::BufferTooSmall {
                required: image_bytes(
                    self.spec_width() as int,
                    self.spec_height() as int,
                    P::spec_byte_size(),
                ) as usize,
                current,
            }),
    {
        let required: usize = self.size();
        if current < required {
            Err(ImageOutputError::BufferTooSmall { required, current })
        } else {
            Ok(())
        }
    }

    /// Copies the pixels of the staged image to the start of `buf` and
    /// returns how many pixels were read. The output has to take the whole
    /// image; what lies behind the image in it stays as it is.
    pub fn read(&self, staged: &[u8], buf: &mut Vec<u8>) -> (outcome: Result<
        usize,
        ImageOutputError,
    >)
        requires
            staged@.len() == staging_bytes(
                self.spec_width() as int,
                self.spec_height() as int,
                P::spec_byte_size(),
            ),
        ensures
            outcome is Ok <==> old(buf)@.len() >= image_bytes(
                self.spec_width() as int,
                self.spec_height() as int,
                P::spec_byte_size(),
            ),
            outcome is Ok ==> {
                &&& outcome->Ok_0 == self.spec_width() * self.spec_height()
                &&& final(buf)@ == overwrite(
                    old(buf)@,
                    strip_rows(
                        staged@,
                        self.spec_width() * P::spec_byte_size(),
                        padded_row_bytes(self.spec_width() * P::spec_byte_size(), 256),
                        self.spec_height() as int,
                    ),
                )
            },
            outcome is Err ==> {
                &&& final(buf)@ == old(buf)@
                &&& outcome->Err_0 == (ImageOutputError::BufferTooSmall {
                    required: image_bytes(
                        self.spec_width() as int,
                        self.spec_height() as int,
                        P::spec_byte_size(),
                    ) as usize,
                    current: old(buf)@.len() as usize,
                })
            },
    {
        proof {
            use_type_invariant(self);
        }
        read_rows(staged, buf, self.width, self.height, P::byte_size())
    }

    /// All the pixels of the staged image, row by row and without padding.
    pub fn read_vec(&self, staged: &[u8]) -> (pixels: Vec<u8>)
        requires
            staged@.len() == staging_bytes(
                self.spec_width() as int,
                self.spec_height() as int,
                P::spec_byte_size(),
            ),
        ensures
            pixels@ == strip_rows(
                staged@,
                self.spec_width() * P::spec_byte_size(),
                padded_row_bytes(self.spec_width() * P::spec_byte_size(), 256),
                self.spec_height() as int,
            ),
    {
        proof {
            use_type_invariant(self);
        }
        let layout = staging_layout(self.width, self.height, P::byte_size());
        strip_padding(staged, &layout, self.height)
    }

    /// Checks `buf` and picks what a write uploads. The input has to be a
    /// whole number of pixels and of rows. Where it has fewer rows than the
    /// image, all of it is written; where it has more, its leading rows are,
    /// as many as the image has.
    pub fn write<'a>(&self, buf: &'a [u8]) -> (outcome: Result<ImageWrite<'a>, ImageInputError>)
        ensures
            outcome is Err <==> input_error(
                buf@.len() as int,
                self.spec_width() as int,
                P::spec_byte_size(),
            ) is Some,
            outcome is Err ==> Some(outcome->Err_0) == input_error(
                buf@.len() as int,
                self.spec_width() as int,
                P::spec_byte_size(),
            ),
            outcome is Ok ==> {
                &&& outcome->Ok_0.width == self.spec_width()
                &&& outcome->Ok_0.height == rows_written(
                    buf@.len() as int,
                    P::spec_byte_size() * self.spec_width(),
                    self.spec_height() as int,
                )
                &&& outcome->Ok_0.data@ == buf@.take(
                    P::spec_byte_size() * self.spec_width() * outcome->Ok_0.height,
                )
            },
    {
        proof {
            use_type_invariant(self);
        }
        plan_write(buf, self.width, self.height, P::byte_size())
    }

    /// Checks `buf` as `write` does and lays the rows that it picks out in a
    /// staging buffer, each padded to the device's row alignment.
    pub fn write_staged(&self, buf: &[u8]) -> (outcome: Result<Vec<u8>, ImageInputError>)
        ensures
            outcome is Err <==> input_error(
                buf@.len() as int,
                self.spec_width() as int,
                P::spec_byte_size(),
            ) is Some,
            outcome is Err ==> Some(outcome->Err_0) == input_error(
                buf@.len() as int,
                self.spec_width() as int,
                P::spec_byte_size(),
            ),
            outcome is Ok ==> outcome->Ok_0@ == pad_rows(
                buf@.take(
                    P::spec_byte_size() * self.spec_width() * rows_written(
                        buf@.len() as int,
                        P::spec_byte_size() * self.spec_width(),
                        self.spec_height() as int,
                    ),
                ),
                self.spec_width() * P::spec_byte_size(),
                padded_row_bytes(self.spec_width() * P::spec_byte_size(), 256),
            ),
    {
        proof {
            use_type_invariant(self);
        }
        stage_write(buf, self.width, self.height, P::byte_size())
    }
}

/// Checks an input as `plan_write` does and lays the rows that it picks out
/// in a staging buffer, each padded to the device's row alignment.
pub fn stage_write(buf: &[u8], width: u32, height: u32, bytes_per_pixel: usize) -> (outcome:
    Result<Vec<u8>, ImageInputError>)
    requires
        valid_dimensions(width, height, bytes_per_pixel as int),
    ensures
        outcome is Err <==> input_error(buf@.len() as int, width as int, bytes_per_pixel as int)
            is Some,
        outcome is Err ==> Some(outcome->Err_0) == input_error(
            buf@.len() as int,
            width as int,
            bytes_per_pixel as int,
        ),
        outcome is Ok ==> outcome->Ok_0@ == pad_rows(
            buf@.take(
                bytes_per_pixel * width * rows_written(
                    buf@.len() as int,
                    bytes_per_pixel * width,
                    height as int,
                ),
            ),
            width * bytes_per_pixel,
            padded_row_bytes(width * bytes_per_pixel, 256),
        ),
{
    match plan_write(buf, width, height, bytes_per_pixel) {
        Err(refusal) => Err(refusal),
        Ok(picked) => {
            let layout = staging_layout(width, height, bytes_per_pixel);
            proof {
                lemma_valid_dimensions(width, height, bytes_per_pixel as int);
                let unpadded = width * bytes_per_pixel;
                let padded = padded_row_bytes(unpadded, 256);
                let rows = picked.height as int;
                assert(rows <= height);
                assert(picked.data@.len() == rows * unpadded + 0) by (nonlinear_arith)
                    requires
                        picked.data@.len() == bytes_per_pixel * width * rows,
                        unpadded == width * bytes_per_pixel,
                ;
                vstd::arithmetic::div_mod::lemma_fundamental_div_mod_converse(
                    picked.data@.len() as int,
                    unpadded,
                    rows,
                    0,
                );
                assert(rows * padded <= padded * height) by (nonlinear_arith)
                    requires
                        0 <= rows <= height,
                        0 < padded,
                ;
            }
            Ok(insert_padding(picked.data, &layout))
        },
    }
}

impl<P: PixelInfo> GpuConstImage<P> {
    /// Bytes of the image's pixels.
    pub fn size(&self) -> (size: usize)
        ensures
            size == image_bytes(
                self.spec_width() as int,
                self.spec_height() as int,
                P::spec_byte_size(),
            ),
    {
        proof {
            use_type_invariant(self);
            lemma_valid_dimensions(self.width, self.height, P::spec_byte_size());
            assert(P::spec_byte_size() * self.width == self.width * P::spec_byte_size())
                by (nonlinear_arith);
        }
        P::byte_size() * (self.width as usize) * (self.height as usize)
    }

    /// Checks `buf` and picks what a write uploads. The input has to be a
    /// whole number of pixels and of rows. Where it has fewer rows than the
    /// image, all of it is written; where it has more, its leading rows are,
    /// as many as the image has.
    pub fn write<'a>(&self, buf: &'a [u8]) -> (outcome: Result<ImageWrite<'a>, ImageInputError>)
        ensures
            outcome is Err <==> input_error(
                buf@.len() as int,
                self.spec_width() as int,
                P::spec_byte_size(),
            ) is Some,
            outcome is Err ==> Some(outcome->Err_0) == input_error(
                buf@.len() as int,
                self.spec_width() as int,
                P::spec_byte_size(),
            ),
            outcome is Ok ==> {
                &&& outcome->Ok_0.width == self.spec_width()
                &&& outcome->Ok_0.height == rows_written(
                    buf@.len() as int,
                    P::spec_byte_size() * self.spec_width(),
                    self.spec_height() as int,
                )
                &&& outcome->Ok_0.data@ == buf@.take(
                    P::spec_byte_size() * self.spec_width() * outcome->Ok_0.height,
                )
            },
    {
        proof {
            use_type_invariant(self);
        }
        plan_write(buf, self.width, self.height, P::byte_size())
    }

    /// Checks `buf` as `write` does and lays the rows that it picks out in a
    /// staging buffer, each padded to the device's row alignment.
    pub fn write_staged(&self, buf: &[u8]) -> (outcome: Result<Vec<u8>, ImageInputError>)
        ensures
            outcome is Err <==> input_error(
                buf@.len() as int,
                self.spec_width() as int,
                P::spec_byte_size(),
            ) is Some,
            outcome is Err ==> Some(outcome->Err_0) == input_error(
                buf@.len() as int,
                self.spec_width() as int,
                P::spec_byte_size(),
            ),
            outcome is Ok ==> outcome->Ok_0@ == pad_rows(
                buf@.take(
                    P::spec_byte_size() * self.spec_width() * rows_written(
                        buf@.len() as int,
                        P::spec_byte_size() * self.spec_width(),
                        self.spec_height() as int,
                    ),
                ),
                self.spec_width() * P::spec_byte_size(),
                padded_row_bytes(self.spec_width() * P::spec_byte_size(), 256),
            ),
    {
        proof {
            use_type_invariant(self);
        }
        stage_write(buf, self.width, self.height, P::byte_size())
    }
}

} // verus!
