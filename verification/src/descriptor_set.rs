//! A layout and its bindings, built together.

use crate::bindings::BindGroupEntry;
use crate::bindings::BindingResource;
use crate::buffers::BufOps;
use crate::buffers::GpuBuffer;
use crate::buffers::GpuUniformBuffer;
use crate::entry_type::GpuBufferUsage;
use crate::images::GpuConstImage;
use crate::images::GpuImage;
use crate::images::ImgOps;
use crate::layout::BindingKind;
use crate::layout::BindingSlot;
use crate::pixels::PixelInfo;
use vstd::prelude::*;

verus! {

/// A group of resources together with the slots that they are bound to.
/// Each call declares a slot and binds a resource to it in one step, so the
/// two sequences always have the same length and the same slot indices.
#[derive(Clone, Debug)]
pub struct DescriptorSet {
    set_layout: Vec<BindingSlot>,
    binds: Vec<BindGroupEntry>,
}

impl Default for DescriptorSet {
    fn default() -> (set: DescriptorSet)
        ensures
            set.spec_layout() == Seq::<BindingSlot>::empty(),
            set.spec_binds() == Seq::<BindGroupEntry>::empty(),
    {
        DescriptorSet { set_layout: Vec::new(), binds: Vec::new() }
    }
}

impl DescriptorSet {
    /// The declared slots, in the order of the calls.
    pub closed spec fn spec_layout(&self) -> Seq<BindingSlot> {
        self.set_layout@
    }

    /// The bound resources, in the order of the calls.
    pub closed spec fn spec_binds(&self) -> Seq<BindGroupEntry> {
        self.binds@
    }

    /// The set with one more slot and the resource bound to it.
    fn bind(self, bind_id: u32, kind: BindingKind, resource: BindingResource) -> (set:
        DescriptorSet)
        ensures
            set.spec_layout() == self.spec_layout().push(
                (BindingSlot { slot_index: bind_id, kind }),
            ),
            set.spec_binds() == self.spec_binds().push(
                (BindGroupEntry { binding: bind_id, resource }),
            ),
    {
        let mut set = self;
        set.set_layout.push(BindingSlot { slot_index: bind_id, kind });
        set.binds.push(BindGroupEntry { binding: bind_id, resource });
        set
    }

    /// Binds a uniform buffer to slot `bind_id`.
    pub fn bind_uniform_buffer(self, uniform_buf: &GpuUniformBuffer, bind_id: u32) -> (set:
        DescriptorSet)
        ensures
            set.spec_layout() == self.spec_layout().push(
                (BindingSlot { slot_index: bind_id, kind: BindingKind::UniformBuffer }),
            ),
            set.spec_binds() == self.spec_binds().push(
                (BindGroupEntry {
                    binding: bind_id,
                    resource: BindingResource::Buffer(uniform_buf.spec_id()),
                }),
            ),
    {
        self.bind(bind_id, BindingKind::UniformBuffer, uniform_buf.as_binding_resource())
    }

    /// Binds a storage buffer to slot `bind_id`, for the given use.
    pub fn bind_buffer(self, storage_buf: &GpuBuffer, usage: GpuBufferUsage, bind_id: u32) -> (set:
        DescriptorSet)
        ensures
            set.spec_layout() == self.spec_layout().push(
                (BindingSlot { slot_index: bind_id, kind: BindingKind::Buffer(usage) }),
            ),
            set.spec_binds() == self.spec_binds().push(
                (BindGroupEntry {
                    binding: bind_id,
                    resource: BindingResource::Buffer(storage_buf.spec_id()),
                }),
            ),
    {
        self.bind(bind_id, BindingKind::Buffer(usage), storage_buf.as_binding_resource())
    }

    /// Binds a writable image to slot `bind_id`.
    pub fn bind_image<P: PixelInfo>(self, img: &GpuImage<P>, bind_id: u32) -> (set: DescriptorSet)
        ensures
            set.spec_layout() == self.spec_layout().push(
                (BindingSlot { slot_index: bind_id, kind: BindingKind::Image(P::spec_format()) }),
            ),
            set.spec_binds() == self.spec_binds().push(
                (BindGroupEntry {
                    binding: bind_id,
                    resource: BindingResource::TextureView(img.spec_id()),
                }),
            ),
    {
        self.bind(bind_id, BindingKind::Image(P::format()), img.as_binding_resource())
    }

    /// Binds a read-only image to slot `bind_id`.
    pub fn bind_const_image<P: PixelInfo>(self, img: &GpuConstImage<P>, bind_id: u32) -> (set:
        DescriptorSet)
        ensures
            set.spec_layout() == self.spec_layout().push(
                (BindingSlot {
                    slot_index: bind_id,
                    kind: BindingKind::ConstImage(P::spec_texture_sample()),
                }),
            ),
            set.spec_binds() == self.spec_binds().push(
                (BindGroupEntry {
                    binding: bind_id,
                    resource: BindingResource::TextureView(img.spec_id()),
                }),
            ),
    {
        self.bind(
            bind_id,
            BindingKind::ConstImage(P::texture_sample()),
            img.as_binding_resource(),
        )
    }

    /// The declared slots, in the order of the calls.
    pub fn layout(&self) -> (slots: &Vec<BindingSlot>)
        ensures
            slots@ == self.spec_layout(),
    {
        &self.set_layout
    }

    /// The bound resources, in the order of the calls.
    pub fn binds(&self) -> (binds: &Vec<BindGroupEntry>)
        ensures
            binds@ == self.spec_binds(),
    {
        &self.binds
    }
}

} // verus!
