use arrayvec::ArrayVec;
use metal_hal::{
    AttributeMapping, BindGroupLayoutInfo, MultiStageData, PipelineLayout, PipelineStageInfo,
    PushConstantsInfo, ResourceBinding, ResourceData, VertexBufferMapping, VertexBufferStepMode,
};

fn mapping(id: u32, formats: &[char]) -> VertexBufferMapping<char> {
    VertexBufferMapping {
        id,
        stride: 4 * id,
        step_mode: VertexBufferStepMode::ByVertex,
        attributes: formats
            .iter()
            .map(|format| AttributeMapping { shader_location: id, offset: 8, format: *format })
            .collect(),
    }
}

fn stage_info() -> PipelineStageInfo<char> {
    PipelineStageInfo {
        push_constants: Some(PushConstantsInfo { count: 4, buffer_index: 0 }),
        sizes_slot: Some(9),
        sized_bindings: vec![
            ResourceBinding { group: 0, binding: 1 },
            ResourceBinding { group: 2, binding: 3 },
        ],
        vertex_buffer_mappings: vec![mapping(1, &['x', 'y']), mapping(2, &[])],
    }
}

fn other_info() -> PipelineStageInfo<char> {
    PipelineStageInfo {
        push_constants: None,
        sizes_slot: Some(1),
        sized_bindings: vec![ResourceBinding { group: 7, binding: 7 }; 5],
        vertex_buffer_mappings: vec![mapping(3, &['z']), mapping(4, &['w']), mapping(5, &['v'])],
    }
}

fn assert_clear(info: &PipelineStageInfo<char>) {
    assert!(info.push_constants.is_none());
    assert!(info.sizes_slot.is_none());
    assert!(info.sized_bindings.is_empty());
    assert!(info.vertex_buffer_mappings.is_empty());
}

fn assert_same(a: &PipelineStageInfo<char>, b: &PipelineStageInfo<char>) {
    assert_eq!(format!("{:?}", a), format!("{:?}", b));
}

#[test]
fn a_new_stage_info_is_clear() {
    assert_clear(&PipelineStageInfo::default());
}

#[test]
fn clear_unbinds_everything() {
    let mut info = stage_info();
    info.clear();
    assert_clear(&info);
}

#[test]
fn a_mapping_is_cloned_with_its_attributes() {
    let copy = mapping(1, &['x', 'y']).clone();
    assert_eq!((copy.id, copy.stride), (1, 4));
    assert_eq!(copy.step_mode, VertexBufferStepMode::ByVertex);
    assert_eq!(copy.attributes.len(), 2);
    assert_eq!(copy.attributes[1].shader_location, 1);
    assert_eq!(copy.attributes[1].offset, 8);
    assert_eq!(copy.attributes[1].format, 'y');
}

#[test]
fn assign_from_replaces_everything() {
    let mut info = other_info();
    info.assign_from(&stage_info());
    assert_eq!(info.push_constants, Some(PushConstantsInfo { count: 4, buffer_index: 0 }));
    assert_eq!(info.sizes_slot, Some(9));
    assert_eq!(info.sized_bindings.len(), 2);
    assert_eq!(info.vertex_buffer_mappings.len(), 2);
    assert_same(&info, &stage_info());
}

#[test]
fn assign_from_leaves_the_source() {
    let source = stage_info();
    let mut info = PipelineStageInfo::default();
    info.assign_from(&source);
    assert_same(&source, &stage_info());
    assert_same(&info, &source);
}

#[test]
fn the_last_assignment_wins() {
    let mut a = stage_info();
    a.assign_from(&other_info());
    a.assign_from(&stage_info());
    let mut b = PipelineStageInfo::default();
    b.assign_from(&stage_info());
    assert_same(&a, &b);
    a.assign_from(&stage_info());
    assert_same(&a, &stage_info());
}

#[test]
fn assigning_nothing_clears() {
    let mut info = stage_info();
    info.assign_from(&PipelineStageInfo::default());
    assert_clear(&info);
}

fn tables(buffers: u32, textures: u32, samplers: u32) -> ResourceData<u32> {
    ResourceData { buffers, textures, samplers }
}

/// A layout whose vertex stage has these bind groups, and nothing in its other stages.
fn layout(
    push_constants: Option<u32>,
    groups: &[ResourceData<u32>],
    end: ResourceData<u32>,
) -> PipelineLayout<()> {
    PipelineLayout {
        bind_group_infos: groups
            .iter()
            .map(|group| BindGroupLayoutInfo {
                base_resource_indices: MultiStageData {
                    vs: group.clone(),
                    fs: tables(0, 0, 0),
                    cs: tables(0, 0, 0),
                },
            })
            .collect::<ArrayVec<BindGroupLayoutInfo, 8>>(),
        push_constants_infos: MultiStageData {
            vs: push_constants.map(|buffer_index| PushConstantsInfo { count: 1, buffer_index }),
            fs: None,
            cs: None,
        },
        total_counters: MultiStageData { vs: end, fs: tables(0, 0, 0), cs: tables(0, 0, 0) },
        total_push_constants: 1,
        per_stage_map: MultiStageData { vs: (), fs: (), cs: () },
    }
}

#[test]
fn a_layout_has_push_constants_and_then_bind_groups() {
    assert!(layout(None, &[], tables(0, 0, 0)).is_well_formed());
    assert!(layout(Some(0), &[], tables(1, 0, 0)).is_well_formed());
    let groups = [tables(1, 0, 0), tables(3, 0, 2), tables(3, 4, 2)];
    assert!(layout(Some(0), &groups, tables(4, 5, 6)).is_well_formed());
    assert!(layout(None, &groups, tables(4, 5, 6)).is_well_formed());
}

#[test]
fn push_constants_elsewhere_are_out_of_order() {
    assert!(!layout(Some(1), &[tables(2, 0, 0)], tables(2, 0, 0)).is_well_formed());
    assert!(!layout(Some(0), &[tables(0, 0, 0)], tables(2, 0, 0)).is_well_formed());
    assert!(!layout(Some(0), &[], tables(0, 0, 0)).is_well_formed());
}

#[test]
fn bind_groups_before_earlier_ones_are_out_of_order() {
    let end = || tables(9, 9, 9);
    assert!(!layout(None, &[tables(2, 0, 0), tables(1, 0, 0)], end()).is_well_formed());
    assert!(!layout(None, &[tables(0, 2, 0), tables(0, 1, 0)], end()).is_well_formed());
    assert!(!layout(None, &[tables(0, 0, 2), tables(0, 0, 1)], end()).is_well_formed());
    assert!(!layout(None, &[tables(0, 0, 0), tables(0, 0, 10)], end()).is_well_formed());
}

#[test]
fn every_stage_of_a_layout_counts() {
    let mut layout = layout(None, &[tables(0, 0, 0)], tables(0, 0, 0));
    layout.bind_group_infos[0].base_resource_indices.cs.textures = 1;
    assert!(!layout.is_well_formed());
    layout.total_counters.cs.textures = 1;
    assert!(layout.is_well_formed());
    layout.bind_group_infos[0].base_resource_indices.fs.samplers = 1;
    assert!(!layout.is_well_formed());
}
