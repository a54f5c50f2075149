//! Handles of buffers on the device, and how many bytes a transfer moves.
//!
//! A handle knows the allocation's size and the size of one element. The
//! bytes themselves live on the device: the caller maps them and hands the
//! mapped bytes in.

use crate::bindings::BindingResource;
use crate::transfer::copy_prefix;
use crate::transfer::overwrite;
use crate::transfer::transfer_size;
use vstd::prelude::*;
use vstd::slice::slice_subrange;

verus! {

/// Why a transfer to or from a buffer failed.
#[derive(Clone, Copy, Debug, PartialEq, Eq, Structural)]
pub enum BufferError {
    /// The device could not map the buffer.
    AsyncMapError,
}

/// A uniform buffer was asked for that the device cannot bind.
#[derive(Clone, Copy, Debug, PartialEq, Eq, Structural)]
pub struct UniformTooLarge {
    /// Bytes that were asked for.
    pub size: u64,
    /// Bytes that the device can bind as one uniform buffer.
    pub max: u64,
}

/// What storage and uniform buffers have in common.
pub trait BufOps: Sized {
    /// The handle that names the allocation on the device.
    spec fn spec_id(&self) -> u64;

    /// Bytes of the allocation.
    spec fn spec_size(&self) -> u64;

    /// Bytes of one element.
    spec fn spec_element_size(&self) -> u64;

    /// Bytes of the allocation.
    fn size(&self) -> (size: u64)
        ensures
            size == self.spec_size(),
    ;

    /// Number of elements that the buffer holds.
    fn capacity(&self) -> (capacity: u64)
        ensures
            self.spec_element_size() > 0,
            capacity == self.spec_size() / self.spec_element_size(),
            capacity * self.spec_element_size() == self.spec_size(),
    ;

    /// A reference to the whole buffer, for a binding.
    fn as_binding_resource(&self) -> (resource: BindingResource)
        ensures
            resource == BindingResource::Buffer(self.spec_id()),
    ;

    /// The handle of a zeroed buffer for exactly `capacity` elements of
    /// `element_size` bytes each.
    fn with_capacity(id: u64, element_size: u64, capacity: u64) -> (buffer: Self)
        requires
            element_size > 0,
            capacity * element_size <= u64::MAX,
        ensures
            buffer.spec_id() == id,
            buffer.spec_element_size() == element_size,
            buffer.spec_size() == capacity * element_size,
    ;

    /// The handle of a buffer that holds exactly the elements whose bytes
    /// are `slice`.
    fn from_slice(id: u64, element_size: u64, slice: &[u8]) -> (buffer: Self)
        requires
            element_size > 0,
            slice@.len() % (element_size as nat) == 0,
        ensures
            buffer.spec_id() == id,
            buffer.spec_element_size() == element_size,
            buffer.spec_size() == slice@.len(),
    ;
}

/// A whole number of elements fills `size` bytes.
pub open spec fn holds_whole_elements(size: u64, element_size: u64) -> bool {
    element_size > 0 && size % element_size == 0
}

/// Quotient times divisor gives a multiple back.
proof fn lemma_whole_elements(size: u64, element_size: u64)
    requires
        holds_whole_elements(size, element_size),
    ensures
        (size / element_size) * element_size == size,
{
    vstd::arithmetic::div_mod::lemma_fundamental_div_mod(size as int, element_size as int);
    assert((size / element_size) * element_size == element_size * (size / element_size))
        by (nonlinear_arith);
}

/// A product with a positive factor is a multiple of it.
proof fn lemma_product_is_whole(capacity: u64, element_size: u64)
    requires
        element_size > 0,
        capacity * element_size <= u64::MAX,
    ensures
        holds_whole_elements((capacity * element_size) as u64, element_size),
{
    vstd::arithmetic::div_mod::lemma_mod_multiples_basic(capacity as int, element_size as int);
}

/// Bytes to read or write, given what the caller offers and what the
/// allocation holds.
pub fn clamp_to_size(offered: u64, size: u64) -> (moved: u64)
    ensures
        moved == transfer_size(offered as int, size as int),
{
    if offered > size {
        size
    } else {
        offered
    }
}

/// Contiguous elements of one type in device memory, for large data that a
/// shader reads or writes.
#[derive(Debug)]
pub struct GpuBuffer {
    id: u64,
    size: u64,
    element_size: u64,
}

/// Contiguous elements of one type in device memory, for small data that a
/// shader only reads.
#[derive(Debug)]
pub struct GpuUniformBuffer {
    id: u64,
    size: u64,
    element_size: u64,
}

impl GpuBuffer {
    #[verifier::type_invariant]
    closed spec fn whole(self) -> bool {
        holds_whole_elements(self.size, self.element_size)
    }
}

impl GpuUniformBuffer {
    #[verifier::type_invariant]
    closed spec fn whole(self) -> bool {
        holds_whole_elements(self.size, self.element_size)
    }
}

impl BufOps for GpuBuffer {
    closed spec fn spec_id(&self) -> u64 {
        self.id
    }

    closed spec fn spec_size(&self) -> u64 {
        self.size
    }

    closed spec fn spec_element_size(&self) -> u64 {
        self.element_size
    }

    fn size(&self) -> (size: u64) {
        self.size
    }

    fn capacity(&self) -> (capacity: u64) {
        proof {
            use_type_invariant(self);
            lemma_whole_elements(self.size, self.element_size);
        }
        self.size / self.element_size
    }

    fn as_binding_resource(&self) -> (resource: BindingResource) {
        BindingResource::Buffer(self.id)
    }

    fn with_capacity(id: u64, element_size: u64, capacity: u64) -> (buffer: Self) {
        proof {
            lemma_product_is_whole(capacity, element_size);
        }
        GpuBuffer { id, size: capacity * element_size, element_size }
    }

    fn from_slice(id: u64, element_size: u64, slice: &[u8]) -> (buffer: Self) {
        GpuBuffer { id, size: slice.len() as u64, element_size }
    }
}

impl BufOps for GpuUniformBuffer {
    closed spec fn spec_id(&self) -> u64 {
        self.id
    }

    closed spec fn spec_size(&self) -> u64 {
        self.size
    }

    closed spec fn spec_element_size(&self) -> u64 {
        self.element_size
    }

    fn size(&self) -> (size: u64) {
        self.size
    }

    fn capacity(&self) -> (capacity: u64) {
        proof {
            use_type_invariant(self);
            lemma_whole_elements(self.size, self.element_size);
        }
        self.size / self.element_size
    }

    fn as_binding_resource(&self) -> (resource: BindingResource) {
        BindingResource::Buffer(self.id)
    }

    fn with_capacity(id: u64, element_size: u64, capacity: u64) -> (buffer: Self) {
        proof {
            lemma_product_is_whole(capacity, element_size);
        }
        GpuUniformBuffer { id, size: capacity * element_size, element_size }
    }

    fn from_slice(id: u64, element_size: u64, slice: &[u8]) -> (buffer: Self) {
        GpuUniformBuffer { id, size: slice.len() as u64, element_size }
    }
}

impl GpuBuffer {
    /// Tells whether the buffer holds no element.
    pub fn is_empty(&self) -> (empty: bool)
        ensures
            empty == (self.spec_size() == 0),
    {
        self.size == 0
    }

    /// Bytes that a read into an output of `output_size` bytes moves: the
    /// whole output, or the whole buffer where the output is larger.
    pub fn read_size(&self, output_size: u64) -> (moved: u64)
        ensures
            moved == transfer_size(output_size as int, self.spec_size() as int),
    {
        clamp_to_size(output_size, self.size)
    }

    /// Copies the mapped bytes of the buffer into the start of `buf`, as
    /// many as fit, and returns how many bytes were read. What lies behind
    /// them in `buf` stays as it is.
    pub fn read(&self, mapped: &[u8], buf: &mut Vec<u8>) -> (read: u64)
        requires
            mapped@.len() == self.spec_size(),
        ensures
            final(buf)@ == overwrite(old(buf)@, mapped@),
            read == transfer_size(self.spec_size() as int, old(buf)@.len() as int),
    {
        copy_prefix(buf, mapped) as u64
    }

    /// All the bytes of the buffer, given its mapped bytes.
    pub fn read_vec(&self, mapped: &[u8]) -> (data: Vec<u8>)
        requires
            mapped@.len() == self.spec_size(),
        ensures
            data@ == mapped@,
    {
        vstd::slice::slice_to_vec(mapped)
    }

    /// Bytes that a write of `input_size` bytes moves: the whole input, or
    /// as much as the buffer holds where the input is larger.
    pub fn write_size(&self, input_size: u64) -> (moved: u64)
        ensures
            moved == transfer_size(input_size as int, self.spec_size() as int),
    {
        clamp_to_size(input_size, self.size)
    }

    /// The bytes to upload to the start of the buffer for a write of `buf`:
    /// all of `buf`, or its leading part where the buffer holds less.
    pub fn write<'a>(&self, buf: &'a [u8]) -> (upload: &'a [u8])
        ensures
            upload@ == buf@.take(transfer_size(buf@.len() as int, self.spec_size() as int)),
    {
        if buf.len() as u64 > self.size {
            slice_subrange(buf, 0, self.size as usize)
        } else {
            assert(buf@.take(buf@.len() as int) =~= buf@);
            buf
        }
    }

    /// Writes `buf` through the mapped bytes of the buffer and returns how
    /// many bytes were written. Bytes of the buffer that the input does not
    /// reach keep what they held.
    pub fn write_mapped(&self, mapped: &mut Vec<u8>, buf: &[u8]) -> (written: u64)
        requires
            old(mapped)@.len() == self.spec_size(),
        ensures
            final(mapped)@ == overwrite(old(mapped)@, buf@),
            written == transfer_size(buf@.len() as int, self.spec_size() as int),
    {
        copy_prefix(mapped, buf) as u64
    }
}

impl GpuUniformBuffer {
    /// The handle of a zeroed uniform buffer for `len` elements, where the
    /// device can bind that many bytes as one uniform buffer.
    pub fn new_uniform(id: u64, element_size: u64, len: u64, max_binding_size: u32) -> (outcome:
        Result<GpuUniformBuffer, UniformTooLarge>)
        requires
            element_size > 0,
            len * element_size <= u64::MAX,
        ensures
            outcome is Ok <==> len * element_size <= max_binding_size,
            outcome is Ok ==> {
                &&& outcome->Ok_0.spec_id() == id
                &&& outcome->Ok_0.spec_element_size() == element_size
                &&& outcome->Ok_0.spec_size() == len * element_size
            },
            outcome is Err ==> outcome->Err_0 == (UniformTooLarge {
                size: (len * element_size) as u64,
                max: max_binding_size as u64,
            }),
    {
        let size: u64 = len * element_size;
        if size > max_binding_size as u64 {
            return Err(UniformTooLarge { size, max: max_binding_size as u64 });
        }
        Ok(GpuUniformBuffer::with_capacity(id, element_size, len))
    }

    /// The handle of a uniform buffer that holds exactly the elements whose
    /// bytes are `data`, where the device can bind that many bytes as one
    /// uniform buffer.
    pub fn uniform_from_slice(
        id: u64,
        element_size: u64,
        data: &[u8],
        max_binding_size: u32,
    ) -> (outcome: Result<GpuUniformBuffer, UniformTooLarge>)
        requires
            element_size > 0,
            data@.len() % (element_size as nat) == 0,
        ensures
            outcome is Ok <==> data@.len() <= max_binding_size,
            outcome is Ok ==> {
                &&& outcome->Ok_0.spec_id() == id
                &&& outcome->Ok_0.spec_element_size() == element_size
                &&& outcome->Ok_0.spec_size() == data@.len()
            },
            outcome is Err ==> outcome->Err_0 == (UniformTooLarge {
                size: data@.len() as u64,
                max: max_binding_size as u64,
            }),
    {
        if data.len() > max_binding_size as usize {
            return Err(UniformTooLarge { size: data.len() as u64, max: max_binding_size as u64 });
        }
        Ok(GpuUniformBuffer::from_slice(id, element_size, data))
    }

    /// Bytes that a write of `input_size` bytes moves: the whole input, or
    /// as much as the buffer holds where the input is larger.
    pub fn write_size(&self, input_size: u64) -> (moved: u64)
        ensures
            moved == transfer_size(input_size as int, self.spec_size() as int),
    {
        clamp_to_size(input_size, self.size)
    }

    /// Writes `buf` through the mapped bytes of the buffer and returns how
    /// many bytes were written. Bytes of the buffer that the input does not
    /// reach keep what they held.
    pub fn write(&self, mapped: &mut Vec<u8>, buf: &[u8]) -> (written: u64)
        requires
            old(mapped)@.len() == self.spec_size(),
        ensures
            final(mapped)@ == overwrite(old(mapped)@, buf@),
            written == transfer_size(buf@.len() as int, self.spec_size() as int),
    {
        copy_prefix(mapped, buf) as u64
    }
}

} // verus!
