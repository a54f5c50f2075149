//! The shape of the bindings that a shader entry point expects.

use crate::entry_type::EntryType;
use crate::entry_type::GpuBufferUsage;
use crate::pixels::PixelInfo;
use crate::pixels::TextureFormat;
use crate::pixels::TextureSampleType;
use vstd::prelude::*;

verus! {

/// What a binding slot takes, with what the device needs to know of it.
#[derive(Clone, Copy, Debug, PartialEq, Eq, Structural)]
pub enum BindingKind {
    /// A storage buffer and how the shader uses it.
    Buffer(GpuBufferUsage),
    /// A uniform buffer.
    UniformBuffer,
    /// A write-only storage image of the given format.
    Image(TextureFormat),
    /// A read-only image, sampled in the given way.
    ConstImage(TextureSampleType),
}

impl BindingKind {
    /// The coarse category that reconciliation compares.
    pub open spec fn spec_entry_type(self) -> EntryType {
        match self {
            BindingKind::Buffer(_) => EntryType::Buffer,
            BindingKind::UniformBuffer => EntryType::Uniform,
            BindingKind::Image(_) => EntryType::Image,
            BindingKind::ConstImage(_) => EntryType::ConstImage,
        }
    }

    /// The coarse category that reconciliation compares.
    pub fn entry_type(&self) -> (entry: EntryType)
        ensures
            entry == self.spec_entry_type(),
    {
        match self {
            BindingKind::Buffer(_) => EntryType::Buffer,
            BindingKind::UniformBuffer => EntryType::Uniform,
            BindingKind::Image(_) => EntryType::Image,
            BindingKind::ConstImage(_) => EntryType::ConstImage,
        }
    }
}

/// One numbered attachment point of a shader's resource interface.
#[derive(Clone, Copy, Debug, PartialEq, Eq, Structural)]
pub struct BindingSlot {
    /// The slot's number in the shader.
    pub slot_index: u32,
    /// What the slot takes.
    pub kind: BindingKind,
}

/// The coarse categories of a sequence of slots, in order.
pub open spec fn entry_types_of(slots: Seq<BindingSlot>) -> Seq<EntryType> {
    Seq::new(slots.len(), |i: int| slots[i].kind.spec_entry_type())
}

/// The binding slots of one set, in the order in which they were declared.
#[derive(Clone, Debug)]
pub struct SetLayout {
    slots: Vec<BindingSlot>,
}

impl View for SetLayout {
    type V = Seq<BindingSlot>;

    closed spec fn view(&self) -> Seq<BindingSlot> {
        self.slots@
    }
}

impl Default for SetLayout {
    fn default() -> (layout: SetLayout)
        ensures
            layout@ == Seq::<BindingSlot>::empty(),
    {
        SetLayout { slots: Vec::new() }
    }
}

impl SetLayout {
    /// The coarse categories of the slots, in declaration order.
    pub open spec fn spec_entry_types(&self) -> Seq<EntryType> {
        entry_types_of(self@)
    }

    /// Declares a storage buffer at slot `bind_id`.
    pub fn add_buffer(&mut self, bind_id: u32, usage: GpuBufferUsage)
        ensures
            final(self)@ == old(self)@.push(
                (BindingSlot { slot_index: bind_id, kind: BindingKind::Buffer(usage) }),
            ),
    {
        self.slots.push(BindingSlot { slot_index: bind_id, kind: BindingKind::Buffer(usage) });
    }

    /// Declares a uniform buffer at slot `bind_id`.
    pub fn add_uniform_buffer(&mut self, bind_id: u32)
        ensures
            final(self)@ == old(self)@.push(
                (BindingSlot { slot_index: bind_id, kind: BindingKind::UniformBuffer }),
            ),
    {
        self.slots.push(BindingSlot { slot_index: bind_id, kind: BindingKind::UniformBuffer });
    }

    /// Declares a write-only image of pixel type `P` at slot `bind_id`.
    pub fn add_image<P: PixelInfo>(&mut self, bind_id: u32)
        ensures
            final(self)@ == old(self)@.push(
                (BindingSlot { slot_index: bind_id, kind: BindingKind::Image(P::spec_format()) }),
            ),
    {
        self.slots.push(BindingSlot { slot_index: bind_id, kind: BindingKind::Image(P::format()) });
    }

    /// Declares a read-only image of pixel type `P` at slot `bind_id`.
    pub fn add_const_image<P: PixelInfo>(&mut self, bind_id: u32)
        ensures
            final(self)@ == old(self)@.push(
                (BindingSlot {
                    slot_index: bind_id,
                    kind: BindingKind::ConstImage(P::spec_texture_sample()),
                }),
            ),
    {
        self.slots.push(
            BindingSlot { slot_index: bind_id, kind: BindingKind::ConstImage(P::texture_sample()) },
        );
    }

    /// Number of slots declared so far.
    pub fn len(&self) -> (n: usize)
        ensures
            n == self@.len(),
    {
        self.slots.len()
    }

    /// The slots, in declaration order.
    pub fn slots(&self) -> (slots: &Vec<BindingSlot>)
        ensures
            slots@ == self@,
    {
        &self.slots
    }

    /// The coarse categories of the slots, in declaration order.
    pub fn entry_types(&self) -> (types: Vec<EntryType>)
        ensures
            types@ == self.spec_entry_types(),
    {
        let mut types: Vec<EntryType> = Vec::new();
        let mut i: usize = 0;
        while i < self.slots.len()
            invariant
                i <= self.slots@.len(),
                types@.len() == i,
                forall|j: int| 0 <= j < i ==> types@[j] == self.slots@[j].kind.spec_entry_type(),
            decreases self.slots@.len() - i,
        {
            types.push(self.slots[i].kind.entry_type());
            i += 1;
        }
        assert(types@ =~= self.spec_entry_types());
        types
    }
}

} // verus!
