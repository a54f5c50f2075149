//! The resources that a dispatch binds, and their reconciliation with a
//! layout.

use crate::buffers::BufOps;
use crate::buffers::GpuBuffer;
use crate::buffers::GpuUniformBuffer;
use crate::entry_type::EntryType;
use crate::images::GpuConstImage;
use crate::images::GpuImage;
use crate::images::ImgOps;
use crate::pixels::PixelInfo;
use vstd::prelude::*;

verus! {

/// A reference to the device resource behind a handle.
#[derive(Clone, Copy, Debug, PartialEq, Eq, Structural)]
pub enum BindingResource {
    /// The whole of the buffer with the given handle.
    Buffer(u64),
    /// The full view of the texture with the given handle.
    TextureView(u64),
}

/// One resource bound to one slot.
#[derive(Clone, Copy, Debug, PartialEq, Eq, Structural)]
pub struct Binding {
    /// The slot's number in the shader.
    pub slot_index: u32,
    /// The coarse category of the resource.
    pub kind: EntryType,
    /// The resource itself.
    pub resource: BindingResource,
}

/// One entry of a device-side binding group: a slot and what it holds.
#[derive(Clone, Copy, Debug, PartialEq, Eq, Structural)]
pub struct BindGroupEntry {
    /// The slot's number in the shader.
    pub binding: u32,
    /// The resource bound to it.
    pub resource: BindingResource,
}

/// Why a binding set does not fit a layout.
#[derive(Clone, Copy, Debug, PartialEq, Eq, Structural)]
pub enum LayoutMismatch {
    /// The two do not have the same number of entries.
    Length,
    /// The entries at one position differ in kind.
    EntryType,
}

/// The coarse categories of a sequence of bindings, in order.
pub open spec fn kinds_of(bindings: Seq<Binding>) -> Seq<EntryType> {
    Seq::new(bindings.len(), |i: int| bindings[i].kind)
}

/// The entries of the binding group that a sequence of bindings describes:
/// each slot index with its resource, as declared.
pub open spec fn bind_group_of(bindings: Seq<Binding>) -> Seq<BindGroupEntry> {
    Seq::new(
        bindings.len(),
        |i: int| BindGroupEntry { binding: bindings[i].slot_index, resource: bindings[i].resource },
    )
}

/// A sequence of bound kinds fits a sequence of declared kinds when the two
/// are equally long and agree at every position.
pub open spec fn reconciles(bound: Seq<EntryType>, declared: Seq<EntryType>) -> bool {
    &&& bound.len() == declared.len()
    &&& forall|i: int| 0 <= i < bound.len() ==> bound[i] == declared[i]
}

/// Bindings whose kinds are those of the layout, slot by slot, reconcile
/// with it.
pub proof fn lemma_same_kinds_reconcile(bound: Seq<EntryType>, declared: Seq<EntryType>)
    requires
        bound == declared,
    ensures
        reconciles(bound, declared),
{
}

/// Bindings that differ from the layout's kinds at a single position do not
/// reconcile with it, wherever the position is and whatever the kind there
/// was changed to.
pub proof fn lemma_altered_kind_fails(
    bound: Seq<EntryType>,
    declared: Seq<EntryType>,
    position: int,
    altered: EntryType,
)
    requires
        0 <= position < declared.len(),
        altered != declared[position],
        bound == declared.update(position, altered),
    ensures
        !reconciles(bound, declared),
{
    assert(bound[position] != declared[position]);
}

/// Bindings of another length than the layout do not reconcile with it.
pub proof fn lemma_other_length_fails(bound: Seq<EntryType>, declared: Seq<EntryType>)
    requires
        bound.len() != declared.len(),
    ensures
        !reconciles(bound, declared),
{
}

/// The resources of one set, in the order in which they were bound.
#[derive(Clone, Debug)]
pub struct SetBindings {
    bindings: Vec<Binding>,
}

impl View for SetBindings {
    type V = Seq<Binding>;

    closed spec fn view(&self) -> Seq<Binding> {
        self.bindings@
    }
}

impl Default for SetBindings {
    fn default() -> (set: SetBindings)
        ensures
            set@ == Seq::<Binding>::empty(),
    {
        SetBindings { bindings: Vec::new() }
    }
}

impl SetBindings {
    /// The coarse categories of the bindings, in the order of binding.
    pub open spec fn spec_entry_types(&self) -> Seq<EntryType> {
        kinds_of(self@)
    }

    /// The set fits a layout with the given kinds.
    pub open spec fn fits(&self, entry_types: Seq<EntryType>) -> bool {
        reconciles(self.spec_entry_types(), entry_types)
    }

    /// The set with one more binding.
    fn add(self, slot_index: u32, kind: EntryType, resource: BindingResource) -> (set:
        SetBindings)
        ensures
            set@ == self@.push((Binding { slot_index, kind, resource })),
    {
        let mut set = self;
        set.bindings.push(Binding { slot_index, kind, resource });
        set
    }

    /// Binds a storage buffer to slot `bind_id`.
    pub fn add_buffer(self, bind_id: u32, buffer: &GpuBuffer) -> (set: SetBindings)
        ensures
            set@ == self@.push(
                (Binding {
                    slot_index: bind_id,
                    kind: EntryType::Buffer,
                    resource: BindingResource::Buffer(buffer.spec_id()),
                }),
            ),
    {
        self.add(bind_id, EntryType::Buffer, buffer.as_binding_resource())
    }

    /// Binds a uniform buffer to slot `bind_id`.
    pub fn add_uniform_buffer(self, bind_id: u32, buffer: &GpuUniformBuffer) -> (set:
        SetBindings)
        ensures
            set@ == self@.push(
                (Binding {
                    slot_index: bind_id,
                    kind: EntryType::Uniform,
                    resource: BindingResource::Buffer(buffer.spec_id()),
                }),
            ),
    {
        self.add(bind_id, EntryType::Uniform, buffer.as_binding_resource())
    }

    /// Binds a writable image to slot `bind_id`.
    pub fn add_image<P: PixelInfo>(self, bind_id: u32, img: &GpuImage<P>) -> (set: SetBindings)
        ensures
            set@ == self@.push(
                (Binding {
                    slot_index: bind_id,
                    kind: EntryType::Image,
                    resource: BindingResource::TextureView(img.spec_id()),
                }),
            ),
    {
        self.add(bind_id, EntryType::Image, img.as_binding_resource())
    }

    /// Binds a read-only image to slot `bind_id`.
    pub fn add_const_image<P: PixelInfo>(self, bind_id: u32, img: &GpuConstImage<P>) -> (set:
        SetBindings)
        ensures
            set@ == self@.push(
                (Binding {
                    slot_index: bind_id,
                    kind: EntryType::ConstImage,
                    resource: BindingResource::TextureView(img.spec_id()),
                }),
            ),
    {
        self.add(bind_id, EntryType::ConstImage, img.as_binding_resource())
    }

    /// Number of bindings.
    pub fn len(&self) -> (n: usize)
        ensures
            n == self@.len(),
    {
        self.bindings.len()
    }

    /// The bindings, in the order of binding.
    pub fn bindings(&self) -> (bindings: &Vec<Binding>)
        ensures
            bindings@ == self@,
    {
        &self.bindings
    }

    /// Tells whether the set fits a layout with the given kinds, and if not,
    /// why: the lengths are compared first, then the kinds from the first
    /// position on. Slot indices and resources play no part.
    pub fn check_layout(&self, entry_types: &Vec<EntryType>) -> (outcome: Result<
        (),
        LayoutMismatch,
    >)
        ensures
            outcome is Ok <==> self.fits(entry_types@),
            outcome == Err::<(), LayoutMismatch>(LayoutMismatch::Length) <==> self@.len()
                != entry_types@.len(),
    {
        if self.bindings.len() != entry_types.len() {
            return Err(LayoutMismatch::Length);
        }
        let mut i: usize = 0;
        while i < self.bindings.len()
            invariant
                i <= self.bindings@.len(),
                self.bindings@.len() == entry_types@.len(),
                forall|j: int| 0 <= j < i ==> self.bindings@[j].kind == entry_types@[j],
            decreases self.bindings@.len() - i,
        {
            if self.bindings[i].kind != entry_types[i] {
                assert(self.spec_entry_types()[i as int] != entry_types@[i as int]);
                return Err(LayoutMismatch::EntryType);
            }
            i += 1;
        }
        Ok(())
    }

    /// The entries of the device-side binding group for this set: the slot
    /// indices zipped with the resources, exactly as they were bound. The
    /// set has to fit the layout that the group is made for.
    pub fn to_bind_group(&self, entry_types: &Vec<EntryType>) -> (entries: Vec<BindGroupEntry>)
        requires
            self.fits(entry_types@),
        ensures
            entries@ == bind_group_of(self@),
    {
        let mut entries: Vec<BindGroupEntry> = Vec::new();
        let mut i: usize = 0;
        while i < self.bindings.len()
            invariant
                i <= self.bindings@.len(),
                entries@.len() == i,
                forall|j: int|
                    0 <= j < i ==> entries@[j] == (BindGroupEntry {
                        binding: self.bindings@[j].slot_index,
                        resource: self.bindings@[j].resource,
                    }),
            decreases self.bindings@.len() - i,
        {
            let bound = &self.bindings[i];
            entries.push(BindGroupEntry { binding: bound.slot_index, resource: bound.resource });
            i += 1;
        }
        assert(entries@ =~= bind_group_of(self@));
        entries
    }

    /// Reconciles the set with a layout's kinds and, where they agree, gives
    /// the entries of the binding group.
    pub fn reconcile(&self, entry_types: &Vec<EntryType>) -> (outcome: Result<
        Vec<BindGroupEntry>,
        LayoutMismatch,
    >)
        ensures
            outcome is Ok <==> self.fits(entry_types@),
            outcome is Ok ==> outcome->Ok_0@ == bind_group_of(self@),
            outcome is Err ==> (outcome->Err_0 == LayoutMismatch::Length <==> self@.len()
                != entry_types@.len()),
    {
        match self.check_layout(entry_types) {
            Ok(()) => Ok(self.to_bind_group(entry_types)),
            Err(mismatch) => Err(mismatch),
        }
    }
}

} // verus!
