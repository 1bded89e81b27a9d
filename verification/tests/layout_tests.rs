use dx12_hal::layout::{
    BindError, BindGroupLayout, BindGroupLayoutEntry, BindingType, BufferBindingType,
    BufferViewKind, LayoutError, PipelineLayout, RootBinding, RootElement, TableTypes,
    MAX_ROOT_SIGNATURE_SIZE,
};
use dx12_hal::resource::BindGroup;
use dx12_hal::{RawHandle, MAX_BIND_GROUPS};

fn entry(binding: u32, ty: BindingType) -> BindGroupLayoutEntry {
    BindGroupLayoutEntry { binding, visibility: 1, ty, count: None }
}

fn uniform(dynamic: bool) -> BindingType {
    BindingType::Buffer { ty: BufferBindingType::Uniform, has_dynamic_offset: dynamic }
}

fn storage(read_only: bool, dynamic: bool) -> BindingType {
    BindingType::Buffer {
        ty: BufferBindingType::Storage { read_only },
        has_dynamic_offset: dynamic,
    }
}

fn entries_of(layout: &BindGroupLayout) -> Vec<BindGroupLayoutEntry> {
    (0..layout.len()).map(|i| layout.entry(i).unwrap()).collect()
}

#[test]
fn table_types_are_two_flags() {
    let mut t = TableTypes::empty();
    assert_eq!(t.bits(), 0);
    assert!(!t.contains(TableTypes::srv_cbv_uav()));
    assert!(!t.contains(TableTypes::samplers()));
    t.insert(TableTypes::samplers());
    assert_eq!(t.bits(), 0x2);
    assert!(t.contains(TableTypes::samplers()));
    assert!(!t.contains(TableTypes::srv_cbv_uav()));
    t.insert(TableTypes::srv_cbv_uav());
    assert_eq!(t.bits(), 0x3);
    assert!(t.contains(TableTypes::srv_cbv_uav()));
    assert_eq!(TableTypes::srv_cbv_uav().bits(), 0x1);
    assert!(t.contains(TableTypes::empty()));
}

#[test]
fn entries_fall_into_one_class_each() {
    let cases = [
        (uniform(false), true, false, None),
        (storage(true, false), true, false, None),
        (BindingType::Texture, true, false, None),
        (BindingType::StorageTexture, true, false, None),
        (BindingType::Sampler, false, true, None),
        (uniform(true), false, false, Some(BufferViewKind::Constant)),
        (storage(true, true), false, false, Some(BufferViewKind::ShaderResource)),
        (storage(false, true), false, false, Some(BufferViewKind::UnorderedAccess)),
    ];
    for (ty, view, sampler, kind) in cases {
        let e = entry(0, ty);
        assert_eq!(e.is_in_view_table(), view);
        assert_eq!(e.is_in_sampler_table(), sampler);
        assert_eq!(e.root_descriptor_kind(), kind);
    }
}

#[test]
fn a_layout_is_sorted_by_binding() {
    let declared = vec![
        entry(5, BindingType::Sampler),
        entry(1, BindingType::Texture),
        entry(3, uniform(true)),
        entry(0, storage(false, true)),
    ];
    let layout = BindGroupLayout::new(declared.clone());
    assert_eq!(layout.len(), 4);
    assert_eq!(
        entries_of(&layout),
        vec![declared[3], declared[1], declared[2], declared[0]]
    );
    assert_eq!(layout.entry(4), None);
    assert_eq!(BindGroupLayout::new(Vec::new()).len(), 0);
}

#[test]
fn layouts_of_the_same_entries_are_equal() {
    let a = entry(0, uniform(true));
    let b = entry(1, BindingType::Texture);
    let c = BindGroupLayoutEntry { count: Some(4), ..entry(2, BindingType::Sampler) };
    let first = BindGroupLayout::new(vec![a, b, c]);
    for declared in [vec![a, c, b], vec![b, a, c], vec![c, b, a]] {
        let other = BindGroupLayout::new(declared);
        assert!(first.same_as(&other));
        assert!(other.same_as(&first));
        assert_eq!(first, other);
    }
    let twin = entry(1, BindingType::Sampler);
    assert_eq!(BindGroupLayout::new(vec![a, b, twin]), BindGroupLayout::new(vec![twin, b, a]));
    assert_ne!(BindGroupLayout::new(vec![a, b, twin]), BindGroupLayout::new(vec![a, b, b]));
    for other in [
        vec![a, b],
        vec![a, b, entry(2, BindingType::Sampler)],
        vec![a, b, BindGroupLayoutEntry { visibility: 3, ..c }],
        vec![a, entry(1, BindingType::StorageTexture), c],
        vec![a, b, BindGroupLayoutEntry { binding: 7, ..c }],
        vec![a, b, BindGroupLayoutEntry { count: Some(5), ..c }],
    ] {
        let other = BindGroupLayout::new(other);
        assert!(!first.same_as(&other));
        assert_ne!(first, other);
    }
    assert!(a.same_as(&a));
    assert!(!a.same_as(&entry(0, uniform(false))));
    assert!(BindGroupLayout::new(Vec::new()).same_as(&BindGroupLayout::new(Vec::new())));
}

#[test]
fn entries_of_one_binding_are_ordered_by_their_other_fields() {
    let a = entry(2, BindingType::Sampler);
    let b = entry(2, BindingType::Texture);
    let c = entry(1, uniform(false));
    for declared in [vec![a, b, c], vec![b, a, c], vec![c, b, a], vec![b, c, a]] {
        assert_eq!(entries_of(&BindGroupLayout::new(declared)), vec![c, a, b]);
    }
    // by the stages that see them, then by what they bind, then by array size
    let seen_by_more = BindGroupLayoutEntry { visibility: 2, ..entry(2, uniform(false)) };
    let array = BindGroupLayoutEntry { count: Some(3), ..b };
    let larger = BindGroupLayoutEntry { count: Some(4), ..b };
    let kinds = [
        entry(2, uniform(false)),
        entry(2, uniform(true)),
        entry(2, storage(true, false)),
        entry(2, storage(true, true)),
        entry(2, storage(false, false)),
        entry(2, storage(false, true)),
        a,
        b,
        array,
        larger,
        entry(2, BindingType::StorageTexture),
        seen_by_more,
    ];
    let mut reversed = kinds.to_vec();
    reversed.reverse();
    assert_eq!(entries_of(&BindGroupLayout::new(reversed)), kinds.to_vec());
    for (i, x) in kinds.iter().enumerate() {
        for (j, y) in kinds.iter().enumerate() {
            assert_eq!(x.precedes(y), i <= j);
        }
    }
    // an entry that is declared twice is held twice
    assert_eq!(entries_of(&BindGroupLayout::new(vec![b, a, b])), vec![a, b, b]);
}

#[test]
fn declaration_order_does_not_reach_the_pipeline_layout() {
    let e = [
        entry(0, uniform(true)),
        entry(1, BindingType::Texture),
        entry(2, storage(false, true)),
        entry(3, BindingType::Sampler),
    ];
    let orders: [[usize; 4]; 4] = [[0, 1, 2, 3], [3, 2, 1, 0], [2, 0, 3, 1], [1, 3, 0, 2]];
    let mut seen: Option<(Vec<BindGroupLayoutEntry>, u8, Vec<BufferViewKind>)> = None;
    for order in orders {
        let declared: Vec<BindGroupLayoutEntry> = order.iter().map(|&i| e[i]).collect();
        let layout = BindGroupLayout::new(declared);
        let sorted = entries_of(&layout);
        let pipeline = PipelineLayout::build(RawHandle(1), &vec![layout]).unwrap();
        let info = pipeline.bind_group_info(0).unwrap();
        assert_eq!(info.base_root_index, 0);
        let this = (sorted, info.tables.bits(), info.dynamic_buffers.clone());
        match &seen {
            Some(first) => assert_eq!(first, &this),
            None => seen = Some(this),
        }
    }
    let (sorted, bits, dynamic) = seen.unwrap();
    assert_eq!(sorted, e.to_vec());
    assert_eq!(bits, 0x3);
    assert_eq!(dynamic, vec![BufferViewKind::Constant, BufferViewKind::UnorderedAccess]);
    // also where entries share a binding index
    let shared = [entry(1, storage(false, true)), entry(1, uniform(true))];
    for declared in [vec![shared[0], shared[1]], vec![shared[1], shared[0]]] {
        let pipeline =
            PipelineLayout::build(RawHandle(1), &vec![BindGroupLayout::new(declared)]).unwrap();
        assert_eq!(
            pipeline.bind_group_info(0).unwrap().dynamic_buffers,
            vec![BufferViewKind::Constant, BufferViewKind::UnorderedAccess]
        );
    }
}

#[test]
fn groups_take_their_root_parameters_in_turn() {
    let groups = vec![
        // views, samplers and two root descriptors: four root parameters
        BindGroupLayout::new(vec![
            entry(0, BindingType::Texture),
            entry(1, BindingType::Sampler),
            entry(2, uniform(true)),
            entry(3, storage(true, true)),
        ]),
        // samplers only: one
        BindGroupLayout::new(vec![entry(0, BindingType::Sampler), entry(1, BindingType::Sampler)]),
        // no entries: none
        BindGroupLayout::new(Vec::new()),
        // one view table: one
        BindGroupLayout::new(vec![entry(0, uniform(false))]),
        // one root descriptor
        BindGroupLayout::new(vec![entry(9, storage(false, true))]),
    ];
    let pipeline = PipelineLayout::build(RawHandle(0x51), &groups).unwrap();
    assert_eq!(pipeline.raw(), RawHandle(0x51));
    assert_eq!(pipeline.group_count(), 5);
    let bases: Vec<u32> =
        (0..5).map(|i| pipeline.bind_group_info(i).unwrap().base_root_index).collect();
    assert_eq!(bases, vec![0, 4, 5, 5, 6]);
    let bits: Vec<u8> = (0..5).map(|i| pipeline.bind_group_info(i).unwrap().tables.bits()).collect();
    assert_eq!(bits, vec![0x3, 0x2, 0x0, 0x1, 0x0]);
    assert_eq!(
        pipeline.bind_group_info(0).unwrap().dynamic_buffers,
        vec![BufferViewKind::Constant, BufferViewKind::ShaderResource]
    );
    assert_eq!(
        pipeline.bind_group_info(4).unwrap().dynamic_buffers,
        vec![BufferViewKind::UnorderedAccess]
    );
    assert!(pipeline.bind_group_info(1).unwrap().dynamic_buffers.is_empty());
    assert!(pipeline.bind_group_info(5).is_none());
}

#[test]
fn base_root_index_starts_at_zero_and_rises_over_groups_with_entries() {
    let groups: Vec<BindGroupLayout> = (0..MAX_BIND_GROUPS as u32)
        .map(|g| {
            let mut entries = vec![entry(0, BindingType::Texture)];
            if g % 2 == 0 {
                entries.push(entry(1, BindingType::Sampler));
            }
            if g % 3 == 0 {
                entries.push(entry(2, uniform(true)));
            }
            BindGroupLayout::new(entries)
        })
        .collect();
    let pipeline = PipelineLayout::build(RawHandle(1), &groups).unwrap();
    assert_eq!(pipeline.group_count(), MAX_BIND_GROUPS);
    assert_eq!(pipeline.bind_group_info(0).unwrap().base_root_index, 0);
    for g in 1..MAX_BIND_GROUPS {
        let before = pipeline.bind_group_info(g - 1).unwrap().base_root_index;
        let here = pipeline.bind_group_info(g).unwrap().base_root_index;
        assert!(before < here);
    }
}

#[test]
fn an_empty_pipeline_layout_is_fine() {
    let pipeline = PipelineLayout::build(RawHandle(1), &Vec::new()).unwrap();
    assert_eq!(pipeline.group_count(), 0);
    assert!(pipeline.bind_group_info(0).is_none());
}

#[test]
fn too_many_bind_groups_are_refused() {
    let groups: Vec<BindGroupLayout> =
        (0..MAX_BIND_GROUPS + 1).map(|_| BindGroupLayout::new(Vec::new())).collect();
    assert_eq!(
        PipelineLayout::build(RawHandle(1), &groups).err(),
        Some(LayoutError::TooManyBindGroups)
    );
    let groups: Vec<BindGroupLayout> =
        (0..MAX_BIND_GROUPS).map(|_| BindGroupLayout::new(Vec::new())).collect();
    assert!(PipelineLayout::build(RawHandle(1), &groups).is_ok());
}

#[test]
fn a_root_signature_has_room_for_sixty_four_words() {
    assert_eq!(MAX_ROOT_SIGNATURE_SIZE, 64);
    let dynamic = |n: u32| -> Vec<BindGroupLayoutEntry> {
        (0..n).map(|b| entry(b, uniform(true))).collect()
    };
    // 32 root descriptors take 64 words
    let fits = vec![BindGroupLayout::new(dynamic(32))];
    assert!(PipelineLayout::build(RawHandle(1), &fits).is_ok());
    // one table more does not fit
    let mut e = dynamic(32);
    e.push(entry(40, BindingType::Sampler));
    assert_eq!(
        PipelineLayout::build(RawHandle(1), &vec![BindGroupLayout::new(e)]).err(),
        Some(LayoutError::RootSignatureTooLarge)
    );
    // nor do 33 root descriptors, nor a great many
    assert_eq!(
        PipelineLayout::build(RawHandle(1), &vec![BindGroupLayout::new(dynamic(33))]).err(),
        Some(LayoutError::RootSignatureTooLarge)
    );
    assert_eq!(
        PipelineLayout::build(RawHandle(1), &vec![BindGroupLayout::new(dynamic(500))]).err(),
        Some(LayoutError::RootSignatureTooLarge)
    );
    // the room is shared by the groups
    let two = vec![BindGroupLayout::new(dynamic(16)), BindGroupLayout::new(dynamic(16))];
    assert!(PipelineLayout::build(RawHandle(1), &two).is_ok());
    let two = vec![BindGroupLayout::new(dynamic(16)), BindGroupLayout::new(dynamic(17))];
    assert_eq!(
        PipelineLayout::build(RawHandle(1), &two).err(),
        Some(LayoutError::RootSignatureTooLarge)
    );
}

fn two_group_pipeline() -> PipelineLayout {
    PipelineLayout::build(
        RawHandle(1),
        &vec![
            BindGroupLayout::new(vec![entry(0, BindingType::Texture)]),
            BindGroupLayout::new(vec![
                entry(3, storage(false, true)),
                entry(0, BindingType::Texture),
                entry(1, BindingType::Sampler),
                entry(2, uniform(true)),
            ]),
        ],
    )
    .unwrap()
}

#[test]
fn a_bind_group_sets_its_tables_then_its_root_descriptors() {
    let pipeline = two_group_pipeline();
    let group = BindGroup {
        gpu_views: Some(0x100),
        gpu_samplers: Some(0x200),
        dynamic_buffers: vec![0x1_0000, 0x2_0000],
    };
    assert_eq!(
        pipeline.set_bind_group(1, &group, &vec![16, 256]),
        Ok(vec![
            RootBinding { root_index: 1, element: RootElement::Table(0x100) },
            RootBinding { root_index: 2, element: RootElement::Table(0x200) },
            RootBinding {
                root_index: 3,
                element: RootElement::DynamicOffsetBuffer {
                    kind: BufferViewKind::Constant,
                    address: 0x1_0010,
                },
            },
            RootBinding {
                root_index: 4,
                element: RootElement::DynamicOffsetBuffer {
                    kind: BufferViewKind::UnorderedAccess,
                    address: 0x2_0100,
                },
            },
        ])
    );
    let first = BindGroup { gpu_views: Some(0x80), gpu_samplers: None, dynamic_buffers: vec![] };
    assert_eq!(
        pipeline.set_bind_group(0, &first, &vec![]),
        Ok(vec![RootBinding { root_index: 0, element: RootElement::Table(0x80) }])
    );
}

#[test]
fn a_bind_group_that_does_not_match_is_refused() {
    let pipeline = two_group_pipeline();
    let group = BindGroup {
        gpu_views: Some(0x100),
        gpu_samplers: Some(0x200),
        dynamic_buffers: vec![0x1_0000, u64::MAX - 4],
    };
    assert_eq!(pipeline.set_bind_group(2, &group, &vec![0, 0]), Err(BindError::NoSuchGroup));
    assert_eq!(pipeline.set_bind_group(1, &group, &vec![0]), Err(BindError::DynamicOffsetCount));
    assert_eq!(pipeline.set_bind_group(1, &group, &vec![0, 5]), Err(BindError::AddressOverflow));
    assert!(pipeline.set_bind_group(1, &group, &vec![0, 4]).is_ok());
    let no_views = BindGroup { gpu_views: None, ..clone_group(&group) };
    assert_eq!(pipeline.set_bind_group(1, &no_views, &vec![0, 0]), Err(BindError::MissingViewTable));
    let no_samplers = BindGroup { gpu_samplers: None, ..clone_group(&group) };
    assert_eq!(
        pipeline.set_bind_group(1, &no_samplers, &vec![0, 0]),
        Err(BindError::MissingSamplerTable)
    );
    let short = BindGroup { dynamic_buffers: vec![1], ..clone_group(&group) };
    assert_eq!(pipeline.set_bind_group(1, &short, &vec![0, 0]), Err(BindError::DynamicBufferCount));
}

fn clone_group(group: &BindGroup) -> BindGroup {
    BindGroup {
        gpu_views: group.gpu_views,
        gpu_samplers: group.gpu_samplers,
        dynamic_buffers: group.dynamic_buffers.clone(),
    }
}
