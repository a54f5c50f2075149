//! Row padding for texture copies.
//!
//! A device copies between a texture and a buffer row by row, and every row
//! of the buffer has to start on a multiple of the device's row alignment.
//! The logical image has no such gaps, so rows are padded on the way to the
//! device and stripped on the way back.

use vstd::arithmetic::div_mod::lemma_fundamental_div_mod_converse;
use vstd::arithmetic::div_mod::lemma_mod_bound;
use vstd::prelude::*;
use vstd::slice::slice_subrange;

verus! {

/// Number of filler bytes that follow a row of `unpadded` bytes so that the
/// next row starts on a multiple of `align`.
pub open spec fn row_padding(unpadded: int, align: int) -> int {
    (align - unpadded % align) % align
}

/// Length of a row once it is padded to a multiple of `align`.
pub open spec fn padded_row_bytes(unpadded: int, align: int) -> int {
    unpadded + row_padding(unpadded, align)
}

/// The rows of `bytes`, each `unpadded` bytes long, laid out `padded` bytes
/// apart. The gaps hold zero.
pub open spec fn pad_rows(bytes: Seq<u8>, unpadded: int, padded: int) -> Seq<u8> {
    Seq::new(
        (((bytes.len() as int) / unpadded) * padded) as nat,
        |i: int|
            if i % padded < unpadded {
                bytes[(i / padded) * unpadded + i % padded]
            } else {
                0u8
            },
    )
}

/// The first `unpadded` bytes of each of the first `rows` rows of `staged`,
/// whose rows lie `padded` bytes apart, put end to end.
pub open spec fn strip_rows(staged: Seq<u8>, unpadded: int, padded: int, rows: int) -> Seq<u8> {
    Seq::new((rows * unpadded) as nat, |i: int| staged[(i / unpadded) * padded + i % unpadded])
}

/// The device's row alignment for copies between textures and buffers, as
/// `wgpu` publishes it in `wgpu::COPY_BYTES_PER_ROW_ALIGNMENT`. The contract
/// gives the value of that constant: 256.
#[verifier::external_body]
pub(crate) fn copy_row_alignment() -> (align: u32)
    ensures
        align == 256,
{
    wgpu::COPY_BYTES_PER_ROW_ALIGNMENT
}

/// How one row of an image lies in a staging buffer.
#[derive(Clone, Copy, Debug, PartialEq, Eq, Structural)]
pub struct RowLayout {
    /// Bytes of pixel data in a row.
    pub unpadded_bytes_per_row: u32,
    /// Filler bytes after the pixel data.
    pub padding: u32,
    /// Distance in bytes from one row to the next.
    pub padded_bytes_per_row: u32,
}

impl RowLayout {
    /// A row holds some pixel data and the three lengths add up.
    pub open spec fn wf(&self) -> bool {
        &&& self.unpadded_bytes_per_row > 0
        &&& self.padded_bytes_per_row == self.unpadded_bytes_per_row + self.padding
    }

    /// The layout is the one that `align` gives to a row of `unpadded` bytes.
    pub open spec fn is_for(&self, unpadded: int, align: int) -> bool {
        &&& self.unpadded_bytes_per_row == unpadded
        &&& self.padding == row_padding(unpadded, align)
        &&& self.padded_bytes_per_row == padded_row_bytes(unpadded, align)
    }

    /// Lays out a row of `width` pixels of `bytes_per_pixel` bytes each for
    /// a device that wants rows aligned to `align` bytes.
    pub fn new(width: u32, bytes_per_pixel: u32, align: u32) -> (layout: RowLayout)
        requires
            align > 0,
            width * bytes_per_pixel + align <= u32::MAX,
        ensures
            layout.is_for(width * bytes_per_pixel, align as int),
            layout.padding < align,
            layout.padded_bytes_per_row % align == 0,
            width * bytes_per_pixel > 0 ==> layout.wf(),
    {
        proof {
            lemma_row_is_aligned(width * bytes_per_pixel, align as int);
            assert(0 <= width * bytes_per_pixel) by (nonlinear_arith);
        }
        let unpadded: u32 = width * bytes_per_pixel;
        let padding: u32 = (align - unpadded % align) % align;
        RowLayout {
            unpadded_bytes_per_row: unpadded,
            padding,
            padded_bytes_per_row: unpadded + padding,
        }
    }

    /// Lays out a row for the alignment that the device asks of copies
    /// between textures and buffers.
    pub fn for_device(width: u32, bytes_per_pixel: u32) -> (layout: RowLayout)
        requires
            width * bytes_per_pixel + 256 <= u32::MAX,
        ensures
            layout.is_for(width * bytes_per_pixel, 256),
            layout.padding < 256,
            layout.padded_bytes_per_row % 256 == 0,
            width * bytes_per_pixel > 0 ==> layout.wf(),
    {
        let align: u32 = copy_row_alignment();
        RowLayout::new(width, bytes_per_pixel, align)
    }

    /// Bytes of a staging buffer that holds `rows` padded rows.
    pub fn staging_size(&self, rows: u32) -> (size: u64)
        ensures
            size == self.padded_bytes_per_row * rows,
    {
        assert(self.padded_bytes_per_row * rows <= u32::MAX * u32::MAX) by (nonlinear_arith)
            requires
                self.padded_bytes_per_row <= u32::MAX,
                rows <= u32::MAX,
        ;
        (self.padded_bytes_per_row as u64) * (rows as u64)
    }
}

/// A padded row is a multiple of the alignment, is at least as long as the
/// row it holds, and adds less than one alignment unit to it.
pub proof fn lemma_row_is_aligned(unpadded: int, align: int)
    requires
        0 <= unpadded,
        0 < align,
    ensures
        0 <= row_padding(unpadded, align) < align,
        padded_row_bytes(unpadded, align) % align == 0,
        unpadded % align == 0 ==> row_padding(unpadded, align) == 0,
{
    let r = unpadded % align;
    lemma_mod_bound(unpadded, align);
    lemma_mod_bound(align - r, align);
    if r == 0 {
        lemma_fundamental_div_mod_converse(align, align, 1, 0);
        assert(row_padding(unpadded, align) == 0);
    } else {
        lemma_fundamental_div_mod_converse(align - r, align, 0, align - r);
        assert(row_padding(unpadded, align) == align - r);
        let q = unpadded / align;
        assert(unpadded == align * q + r) by {
            vstd::arithmetic::div_mod::lemma_fundamental_div_mod(unpadded, align);
        }
        assert(unpadded + (align - r) == (q + 1) * align + 0) by (nonlinear_arith)
            requires
                unpadded == align * q + r,
        ;
        lemma_fundamental_div_mod_converse(unpadded + (align - r), align, q + 1, 0);
    }
}

/// Byte `col` of row `row`, in rows that lie `stride` bytes apart, sits at an
/// index whose quotient and remainder by `stride` give the row and the column back.
pub proof fn lemma_row_index(row: int, col: int, stride: int)
    requires
        0 <= col < stride,
    ensures
        (row * stride + col) / stride == row,
        (row * stride + col) % stride == col,
{
    lemma_fundamental_div_mod_converse(row * stride + col, stride, row, col);
}

/// Every index below `rows * stride` lies in one of the first `rows` rows.
pub proof fn lemma_index_row(i: int, rows: int, stride: int)
    requires
        0 < stride,
        0 <= i < rows * stride,
    ensures
        0 <= i / stride < rows,
        0 <= i % stride < stride,
        i == (i / stride) * stride + i % stride,
{
    lemma_mod_bound(i, stride);
    vstd::arithmetic::div_mod::lemma_fundamental_div_mod(i, stride);
    let q = i / stride;
    let r = i % stride;
    assert(i == q * stride + r) by (nonlinear_arith)
        requires
            i == stride * q + r,
    ;
    assert(0 <= q < rows) by (nonlinear_arith)
        requires
            i == q * stride + r,
            0 <= r < stride,
            0 <= i < rows * stride,
    ;
}

/// Stripping the padding from padded rows gives the rows back: for every row
/// length, every stride that is no shorter, and every whole number of rows,
/// `strip_rows` undoes `pad_rows`.
pub proof fn lemma_strip_undoes_pad(bytes: Seq<u8>, unpadded: int, padded: int)
    requires
        0 < unpadded <= padded,
        (bytes.len() as int) % unpadded == 0,
    ensures
        strip_rows(
            pad_rows(bytes, unpadded, padded),
            unpadded,
            padded,
            (bytes.len() as int) / unpadded,
        ) == bytes,
{
    let rows = (bytes.len() as int) / unpadded;
    vstd::arithmetic::div_mod::lemma_fundamental_div_mod(bytes.len() as int, unpadded);
    assert(bytes.len() == rows * unpadded) by (nonlinear_arith)
        requires
            bytes.len() == unpadded * rows + 0,
    ;
    assert(0 <= rows) by (nonlinear_arith)
        requires
            bytes.len() == rows * unpadded,
            0 < unpadded,
    ;
    assert(0 <= rows * padded) by (nonlinear_arith)
        requires
            0 <= rows,
            0 < padded,
    ;
    let staged = pad_rows(bytes, unpadded, padded);
    let back = strip_rows(staged, unpadded, padded, rows);
    assert(back.len() == bytes.len());
    assert forall|i: int| 0 <= i < bytes.len() implies back[i] == bytes[i] by {
        lemma_index_row(i, rows, unpadded);
        let row = i / unpadded;
        let col = i % unpadded;
        lemma_row_index(row, col, padded);
        assert(0 <= row * padded + col < rows * padded) by (nonlinear_arith)
            requires
                0 <= row < rows,
                0 <= col < padded,
        ;
    }
    assert(back =~= bytes);
}

/// Drops the padding of `rows` staged rows and returns the pixel data alone.
pub fn strip_padding(staged: &[u8], layout: &RowLayout, rows: u32) -> (out: Vec<u8>)
    requires
        layout.wf(),
        staged@.len() == layout.padded_bytes_per_row * rows,
    ensures
        out@ == strip_rows(
            staged@,
            layout.unpadded_bytes_per_row as int,
            layout.padded_bytes_per_row as int,
            rows as int,
        ),
{
    let unpadded: usize = layout.unpadded_bytes_per_row as usize;
    let padded: usize = layout.padded_bytes_per_row as usize;
    let height: usize = rows as usize;
    let total: usize = staged.len();
    let mut out: Vec<u8> = Vec::new();
    let mut row: usize = 0;
    while row < height
        invariant
            row <= height,
            0 < unpadded <= padded,
            staged@.len() == padded * height,
            total == padded * height,
            out@.len() == row * unpadded,
            forall|i: int|
                0 <= i < out@.len() ==> out@[i] == #[trigger] staged@[(i / (unpadded as int))
                    * padded + i % (unpadded as int)],
        decreases height - row,
    {
        assert(0 <= row * padded && row * padded + padded <= padded * height)
            by (nonlinear_arith)
            requires
                0 <= row < height,
                0 < padded,
        ;
        assert((row + 1) * unpadded == row * unpadded + unpadded) by (nonlinear_arith);
        let start: usize = row * padded;
        let chunk = slice_subrange(staged, start, start + unpadded);
        let ghost before = out@;
        out.extend_from_slice(chunk);
        proof {
            assert forall|i: int| 0 <= i < out@.len() implies out@[i] == #[trigger] staged@[(i / (
            unpadded as int)) * padded + i % (unpadded as int)] by {
                if i >= before.len() {
                    let col = i - before.len();
                    lemma_row_index(row as int, col, unpadded as int);
                    assert(out@[i] == chunk@[col]);
                }
            }
        }
        row += 1;
    }
    assert(out@ =~= strip_rows(staged@, unpadded as int, padded as int, rows as int));
    out
}

/// Lays the rows of `bytes` out with the layout's padding after each, ready
/// for a copy from a buffer to a texture. The filler bytes are zero.
pub fn insert_padding(bytes: &[u8], layout: &RowLayout) -> (out: Vec<u8>)
    requires
        layout.wf(),
        bytes@.len() % (layout.unpadded_bytes_per_row as nat) == 0,
        (bytes@.len() / (layout.unpadded_bytes_per_row as nat)) * layout.padded_bytes_per_row
            <= usize::MAX,
    ensures
        out@ == pad_rows(
            bytes@,
            layout.unpadded_bytes_per_row as int,
            layout.padded_bytes_per_row as int,
        ),
{
    let unpadded: usize = layout.unpadded_bytes_per_row as usize;
    let padded: usize = layout.padded_bytes_per_row as usize;
    let padding: usize = layout.padding as usize;
    let total: usize = bytes.len();
    let height: usize = total / unpadded;
    proof {
        vstd::arithmetic::div_mod::lemma_fundamental_div_mod(bytes@.len() as int, unpadded as int);
        assert(bytes@.len() == height * unpadded) by (nonlinear_arith)
            requires
                bytes@.len() == unpadded * height + 0,
        ;
    }
    let mut out: Vec<u8> = Vec::new();
    let mut row: usize = 0;
    while row < height
        invariant
            row <= height,
            0 < unpadded,
            padded == unpadded + padding,
            bytes@.len() == height * unpadded,
            total == height * unpadded,
            height * padded <= usize::MAX,
            out@.len() == row * padded,
            forall|i: int|
                0 <= i < out@.len() ==> #[trigger] out@[i] == (if i % (padded as int) < unpadded {
                    bytes@[(i / (padded as int)) * unpadded + i % (padded as int)]
                } else {
                    0u8
                }),
        decreases height - row,
    {
        assert(0 <= row * unpadded && row * unpadded + unpadded <= height * unpadded)
            by (nonlinear_arith)
            requires
                0 <= row < height,
                0 < unpadded,
        ;
        assert((row + 1) * padded == row * padded + padded) by (nonlinear_arith);
        assert(0 <= row * padded && row * padded + padded <= height * padded)
            by (nonlinear_arith)
            requires
                0 <= row < height,
                0 < padded,
        ;
        let start: usize = row * unpadded;
        let chunk = slice_subrange(bytes, start, start + unpadded);
        let ghost before = out@;
        out.extend_from_slice(chunk);
        let ghost filled = out@;
        let mut gap: usize = 0;
        while gap < padding
            invariant
                gap <= padding,
                padded == unpadded + padding,
                row * padded + padded <= usize::MAX,
                filled.len() == row * padded + unpadded,
                out@.len() == filled.len() + gap,
                forall|i: int| 0 <= i < filled.len() ==> out@[i] == filled[i],
                forall|i: int| filled.len() <= i < out@.len() ==> out@[i] == 0u8,
            decreases padding - gap,
        {
            out.push(0u8);
            gap += 1;
        }
        proof {
            assert forall|i: int| 0 <= i < out@.len() implies #[trigger] out@[i] == (if i % (
            padded as int) < unpadded {
                bytes@[(i / (padded as int)) * unpadded + i % (padded as int)]
            } else {
                0u8
            }) by {
                if i >= before.len() {
                    let col = i - before.len();
                    lemma_row_index(row as int, col, padded as int);
                    if col < unpadded {
                        assert(out@[i] == filled[i]);
                        assert(filled[i] == chunk@[col]);
                    }
                } else {
                    assert(out@[i] == filled[i]);
                    assert(filled[i] == before[i]);
                }
            }
        }
        row += 1;
    }
    assert(out@ =~= pad_rows(bytes@, unpadded as int, padded as int));
    out
}

/// What an allocation holds after `data` was written to its start: the
/// leading bytes of `data`, as many as fit, and after them what the
/// allocation held before.
pub open spec fn overwrite(contents: Seq<u8>, data: Seq<u8>) -> Seq<u8> {
    if data.len() >= contents.len() {
        data.take(contents.len() as int)
    } else {
        data + contents.skip(data.len() as int)
    }
}

/// Number of bytes that a transfer of `offered` bytes moves to or from an
/// allocation of `capacity` bytes.
pub open spec fn transfer_size(offered: int, capacity: int) -> int {
    if offered > capacity {
        capacity
    } else {
        offered
    }
}

/// A write never changes the length of an allocation. It replaces exactly
/// the first `transfer_size` bytes by the leading bytes of the input, and
/// leaves every byte after them as it was.
pub proof fn lemma_partial_write(contents: Seq<u8>, data: Seq<u8>)
    ensures
        overwrite(contents, data).len() == contents.len(),
        overwrite(contents, data).take(transfer_size(data.len() as int, contents.len() as int))
            == data.take(transfer_size(data.len() as int, contents.len() as int)),
        overwrite(contents, data).skip(transfer_size(data.len() as int, contents.len() as int))
            == contents.skip(transfer_size(data.len() as int, contents.len() as int)),
{
    let n = transfer_size(data.len() as int, contents.len() as int);
    let after = overwrite(contents, data);
    assert(after.take(n) =~= data.take(n));
    assert(after.skip(n) =~= contents.skip(n));
}

/// Writing data of an allocation's own length and reading the allocation
/// back gives the data, whatever the allocation held before.
pub proof fn lemma_write_read_round_trip(contents: Seq<u8>, data: Seq<u8>)
    requires
        data.len() == contents.len(),
    ensures
        overwrite(contents, data) == data,
{
    assert(overwrite(contents, data) =~= data);
}

/// Copies the leading bytes of `src` over the start of `dst`, as many as
/// fit, and returns how many that were. The rest of `dst` stays as it is.
pub fn copy_prefix(dst: &mut Vec<u8>, src: &[u8]) -> (copied: usize)
    ensures
        final(dst)@ == overwrite(old(dst)@, src@),
        copied == transfer_size(src@.len() as int, old(dst)@.len() as int),
{
    let count: usize = if src.len() > dst.len() {
        dst.len()
    } else {
        src.len()
    };
    let mut i: usize = 0;
    while i < count
        invariant
            i <= count,
            count <= src@.len(),
            count <= dst@.len(),
            dst@.len() == old(dst)@.len(),
            forall|j: int| 0 <= j < i ==> dst@[j] == src@[j],
            forall|j: int| i <= j < dst@.len() ==> dst@[j] == old(dst)@[j],
        decreases count - i,
    {
        dst[i] = src[i];
        i += 1;
    }
    assert(dst@ =~= overwrite(old(dst)@, src@));
    count
}

} // verus!
