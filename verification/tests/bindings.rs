use gpgpu::bindings::BindGroupEntry;
use gpgpu::bindings::Binding;
use gpgpu::bindings::BindingResource;
use gpgpu::bindings::LayoutMismatch;
use gpgpu::kernel::workgroup_count;
use gpgpu::kernel::Command;
use gpgpu::kernel::SetMismatch;
use gpgpu::layout::BindingKind;
use gpgpu::layout::BindingSlot;
use gpgpu::pixels::Rgba8Uint;
use gpgpu::pixels::TextureFormat;
use gpgpu::pixels::TextureSampleType;
use gpgpu::BufOps;
use gpgpu::DescriptorSet;
use gpgpu::EntryType;
use gpgpu::GpuBuffer;
use gpgpu::GpuBufferUsage;
use gpgpu::GpuConstImage;
use gpgpu::GpuImage;
use gpgpu::GpuUniformBuffer;
use gpgpu::ImgOps;
use gpgpu::Kernel;
use gpgpu::Program;
use gpgpu::SetBindings;
use gpgpu::SetLayout;

fn full_layout() -> SetLayout {
    let mut layout = SetLayout::default();
    layout.add_uniform_buffer(0);
    layout.add_image::<Rgba8Uint>(1);
    layout.add_const_image::<Rgba8Uint>(2);
    layout.add_buffer(3, GpuBufferUsage::ReadOnly);
    layout
}

fn bind_kind(set: SetBindings, slot: u32, kind: EntryType) -> SetBindings {
    match kind {
        EntryType::Buffer => set.add_buffer(slot, &GpuBuffer::with_capacity(10, 4, 4)),
        EntryType::Uniform => set.add_uniform_buffer(slot, &GpuUniformBuffer::with_capacity(11, 4, 1)),
        EntryType::Image => set.add_image(slot, &GpuImage::<Rgba8Uint>::new(12, 2, 2)),
        EntryType::ConstImage => set.add_const_image(slot, &GpuConstImage::<Rgba8Uint>::new(13, 2, 2)),
    }
}

fn bind_all(kinds: &[EntryType]) -> SetBindings {
    let mut set = SetBindings::default();
    for (slot, kind) in kinds.iter().enumerate() {
        set = bind_kind(set, slot as u32, *kind);
    }
    set
}

const ALL_KINDS: [EntryType; 4] =
    [EntryType::Buffer, EntryType::Uniform, EntryType::ConstImage, EntryType::Image];

#[test]
fn layout_records_slots_in_declaration_order() {
    let layout = full_layout();
    assert_eq!(layout.len(), 4);
    assert_eq!(
        layout.slots(),
        &vec![
            BindingSlot { slot_index: 0, kind: BindingKind::UniformBuffer },
            BindingSlot { slot_index: 1, kind: BindingKind::Image(TextureFormat::Rgba8Uint) },
            BindingSlot { slot_index: 2, kind: BindingKind::ConstImage(TextureSampleType::Uint) },
            BindingSlot { slot_index: 3, kind: BindingKind::Buffer(GpuBufferUsage::ReadOnly) },
        ]
    );
    assert_eq!(
        layout.entry_types(),
        vec![EntryType::Uniform, EntryType::Image, EntryType::ConstImage, EntryType::Buffer]
    );
}

#[test]
fn empty_layout_has_no_slots() {
    let layout = SetLayout::default();
    assert_eq!(layout.len(), 0);
    assert_eq!(layout.entry_types(), Vec::<EntryType>::new());
}

#[test]
fn slot_indices_need_not_be_contiguous() {
    let mut layout = SetLayout::default();
    layout.add_buffer(7, GpuBufferUsage::ReadWrite);
    layout.add_buffer(2, GpuBufferUsage::ReadOnly);
    assert_eq!(
        layout.slots(),
        &vec![
            BindingSlot { slot_index: 7, kind: BindingKind::Buffer(GpuBufferUsage::ReadWrite) },
            BindingSlot { slot_index: 2, kind: BindingKind::Buffer(GpuBufferUsage::ReadOnly) },
        ]
    );
}

#[test]
fn bindings_record_slot_kind_and_resource() {
    let buffer = GpuBuffer::with_capacity(40, 4, 8);
    let image: GpuImage<Rgba8Uint> = GpuImage::new(41, 2, 2);
    let set = SetBindings::default().add_buffer(3, &buffer).add_image(0, &image);
    assert_eq!(set.len(), 2);
    assert_eq!(
        set.bindings(),
        &vec![
            Binding { slot_index: 3, kind: EntryType::Buffer, resource: BindingResource::Buffer(40) },
            Binding {
                slot_index: 0,
                kind: EntryType::Image,
                resource: BindingResource::TextureView(41),
            },
        ]
    );
}

#[test]
fn matching_kinds_reconcile() {
    let layout = full_layout();
    let kinds = layout.entry_types();
    let set = bind_all(&kinds);
    assert_eq!(set.check_layout(&kinds), Ok(()));
    let entries = set.reconcile(&kinds).expect("the kinds agree");
    assert_eq!(
        entries,
        vec![
            BindGroupEntry { binding: 0, resource: BindingResource::Buffer(11) },
            BindGroupEntry { binding: 1, resource: BindingResource::TextureView(12) },
            BindGroupEntry { binding: 2, resource: BindingResource::TextureView(13) },
            BindGroupEntry { binding: 3, resource: BindingResource::Buffer(10) },
        ]
    );
    assert_eq!(set.to_bind_group(&kinds), entries);
}

#[test]
fn slot_index_plays_no_part_in_reconciliation() {
    let kinds = vec![EntryType::Buffer, EntryType::Uniform];
    let set = SetBindings::default()
        .add_buffer(9, &GpuBuffer::with_capacity(1, 4, 1))
        .add_uniform_buffer(4, &GpuUniformBuffer::with_capacity(2, 4, 1));
    assert_eq!(set.check_layout(&kinds), Ok(()));
}

#[test]
fn any_single_altered_kind_fails() {
    let kinds = full_layout().entry_types();
    for position in 0..kinds.len() {
        for altered in ALL_KINDS {
            if altered == kinds[position] {
                continue;
            }
            let mut bound = kinds.clone();
            bound[position] = altered;
            let set = bind_all(&bound);
            assert_eq!(set.check_layout(&kinds), Err(LayoutMismatch::EntryType));
            assert_eq!(set.reconcile(&kinds).err(), Some(LayoutMismatch::EntryType));
        }
    }
}

#[test]
fn another_length_fails() {
    let kinds = full_layout().entry_types();
    let shorter = bind_all(&kinds[..3]);
    assert_eq!(shorter.check_layout(&kinds), Err(LayoutMismatch::Length));
    let mut more = kinds.clone();
    more.push(EntryType::Buffer);
    let longer = bind_all(&more);
    assert_eq!(longer.check_layout(&kinds), Err(LayoutMismatch::Length));
    assert_eq!(longer.reconcile(&kinds).err(), Some(LayoutMismatch::Length));
}

#[test]
fn empty_set_fits_empty_layout() {
    let set = SetBindings::default();
    assert_eq!(set.check_layout(&Vec::new()), Ok(()));
    assert_eq!(set.reconcile(&Vec::new()), Ok(Vec::new()));
}

#[test]
fn kernel_records_the_commands_of_a_dispatch_in_order() {
    let mut first = SetLayout::default();
    first.add_buffer(0, GpuBufferUsage::ReadOnly);
    first.add_buffer(1, GpuBufferUsage::ReadWrite);
    let mut second = SetLayout::default();
    second.add_uniform_buffer(0);
    let kernel = Kernel::new("main", vec![first, second]);
    assert_eq!(kernel.sets(), 2);

    let a = GpuBuffer::with_capacity(100, 4, 16);
    let b = GpuBuffer::with_capacity(101, 4, 16);
    let u = GpuUniformBuffer::with_capacity(102, 4, 1);
    let sets = vec![
        SetBindings::default().add_buffer(0, &a).add_buffer(1, &b),
        SetBindings::default().add_uniform_buffer(0, &u),
    ];
    assert_eq!(kernel.check_bindings(&sets), Ok(()));
    let commands = kernel.run(sets, 16, 1, 1);
    assert_eq!(commands.len(), 5);
    assert!(matches!(commands[0], Command::SetPipeline));
    match &commands[1] {
        Command::SetBindGroup { index, entries } => {
            assert_eq!(*index, 0);
            assert_eq!(
                entries,
                &vec![
                    BindGroupEntry { binding: 0, resource: a.as_binding_resource() },
                    BindGroupEntry { binding: 1, resource: b.as_binding_resource() },
                ]
            );
        }
        other => panic!("expected a bind group, got {:?}", other),
    }
    match &commands[2] {
        Command::SetBindGroup { index, entries } => {
            assert_eq!(*index, 1);
            assert_eq!(entries, &vec![BindGroupEntry { binding: 0, resource: u.as_binding_resource() }]);
        }
        other => panic!("expected a bind group, got {:?}", other),
    }
    assert!(matches!(commands[3], Command::InsertDebugMarker("main")));
    assert!(matches!(commands[4], Command::DispatchWorkgroups { x: 16, y: 1, z: 1 }));
}

#[test]
fn kernel_without_sets_only_dispatches() {
    let kernel = Kernel::new("noop", Vec::new());
    let commands = kernel.run(Vec::new(), 1, 2, 3);
    assert_eq!(commands.len(), 3);
    assert!(matches!(commands[0], Command::SetPipeline));
    assert!(matches!(commands[1], Command::InsertDebugMarker("noop")));
    assert!(matches!(commands[2], Command::DispatchWorkgroups { x: 1, y: 2, z: 3 }));
}

#[test]
fn kernel_names_the_first_set_that_does_not_fit() {
    let mut first = SetLayout::default();
    first.add_buffer(0, GpuBufferUsage::ReadOnly);
    let mut second = SetLayout::default();
    second.add_image::<Rgba8Uint>(0);
    let kernel = Kernel::new("main", vec![first, second]);

    let a = GpuBuffer::with_capacity(100, 4, 16);
    let wrong_kind = vec![
        SetBindings::default().add_buffer(0, &a),
        SetBindings::default().add_buffer(0, &a),
    ];
    assert_eq!(
        kernel.check_bindings(&wrong_kind),
        Err(SetMismatch { set: 1, mismatch: LayoutMismatch::EntryType })
    );
    let wrong_length = vec![SetBindings::default(), SetBindings::default()];
    assert_eq!(
        kernel.check_bindings(&wrong_length),
        Err(SetMismatch { set: 0, mismatch: LayoutMismatch::Length })
    );
}

#[test]
fn workgroup_count_rounds_up() {
    assert_eq!(workgroup_count(10000, 1), 10000);
    assert_eq!(workgroup_count(10000, 64), 157);
    assert_eq!(workgroup_count(64, 64), 1);
    assert_eq!(workgroup_count(65, 64), 2);
    assert_eq!(workgroup_count(1, 64), 1);
    assert_eq!(workgroup_count(0, 64), 0);
    assert_eq!(workgroup_count(u32::MAX, 1), u32::MAX);
    assert_eq!(workgroup_count(u32::MAX, u32::MAX), 1);
}

#[test]
fn descriptor_set_declares_and_binds_in_one_step() {
    let buffer = GpuBuffer::with_capacity(1, 4, 4);
    let uniform = GpuUniformBuffer::with_capacity(2, 4, 1);
    let image: GpuImage<Rgba8Uint> = GpuImage::new(3, 2, 2);
    let constant: GpuConstImage<Rgba8Uint> = GpuConstImage::new(4, 2, 2);
    let set = DescriptorSet::default()
        .bind_uniform_buffer(&uniform, 0)
        .bind_buffer(&buffer, GpuBufferUsage::ReadWrite, 1)
        .bind_image(&image, 2)
        .bind_const_image(&constant, 3);
    assert_eq!(
        set.layout(),
        &vec![
            BindingSlot { slot_index: 0, kind: BindingKind::UniformBuffer },
            BindingSlot { slot_index: 1, kind: BindingKind::Buffer(GpuBufferUsage::ReadWrite) },
            BindingSlot { slot_index: 2, kind: BindingKind::Image(TextureFormat::Rgba8Uint) },
            BindingSlot { slot_index: 3, kind: BindingKind::ConstImage(TextureSampleType::Uint) },
        ]
    );
    assert_eq!(
        set.binds(),
        &vec![
            BindGroupEntry { binding: 0, resource: BindingResource::Buffer(2) },
            BindGroupEntry { binding: 1, resource: BindingResource::Buffer(1) },
            BindGroupEntry { binding: 2, resource: BindingResource::TextureView(3) },
            BindGroupEntry { binding: 3, resource: BindingResource::TextureView(4) },
        ]
    );
}

#[test]
fn program_collects_descriptor_sets_in_order() {
    let buffer = GpuBuffer::with_capacity(1, 4, 4);
    let first = DescriptorSet::default().bind_buffer(&buffer, GpuBufferUsage::ReadOnly, 0);
    let program = Program::new(String::from("main"))
        .add_descriptor_set(first)
        .add_descriptor_set(DescriptorSet::default());
    assert_eq!(program.entry_point(), "main");
    assert_eq!(program.descriptors().len(), 2);
    assert_eq!(program.descriptors()[0].binds().len(), 1);
    assert_eq!(program.descriptors()[1].binds().len(), 0);
}
