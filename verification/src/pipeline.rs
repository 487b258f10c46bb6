//! What a pipeline keeps for each of its shader stages.

use crate::stage::{
    MultiStageData, MultiStageResourceCounters, ResourceData, ResourceIndex, ShaderStage,
};
use vstd::prelude::*;

verus! {

/// An index into the buffer argument table of a stage.
pub type Slot = u8;

/// The `@group` and `@binding` attributes of a resource.
#[derive(Clone, Copy, Debug, PartialEq, Eq, Hash, Structural)]
pub struct ResourceBinding {
    pub group: u32,
    pub binding: u32,
}

/// Where the push constants of a stage are bound.
#[derive(Clone, Copy, Debug, PartialEq, Eq, Structural)]
pub struct PushConstantsInfo {
    pub count: u32,
    pub buffer_index: ResourceIndex,
}

/// When a vertex buffer moves on to its next element.
#[derive(Clone, Copy, Debug, PartialEq, Eq, Structural)]
pub enum VertexBufferStepMode {
    Constant,
    ByVertex,
    ByInstance,
}

/// Where a vertex attribute of format `F` is found in the elements of a vertex buffer.
#[derive(Clone, Copy, Debug)]
pub struct AttributeMapping<F> {
    pub shader_location: u32,
    pub offset: u32,
    pub format: F,
}

/// What a shader reads from a vertex buffer.
#[derive(Debug)]
pub struct VertexBufferMapping<F> {
    pub id: u32,
    pub stride: u32,
    pub step_mode: VertexBufferStepMode,
    pub attributes: Vec<AttributeMapping<F>>,
}

/// The contents of a [`VertexBufferMapping`].
pub struct VertexBufferMappingView<F> {
    pub id: u32,
    pub stride: u32,
    pub step_mode: VertexBufferStepMode,
    pub attributes: Seq<AttributeMapping<F>>,
}

impl<F> View for VertexBufferMapping<F> {
    type V = VertexBufferMappingView<F>;

    open spec fn view(&self) -> VertexBufferMappingView<F> {
        VertexBufferMappingView {
            id: self.id,
            stride: self.stride,
            step_mode: self.step_mode,
            attributes: self.attributes@,
        }
    }
}

impl<F: Copy> Clone for VertexBufferMapping<F> {
    fn clone(&self) -> (copy: Self)
        ensures
            copy@ == self@,
            copy.id == self.id,
            copy.stride == self.stride,
            copy.step_mode == self.step_mode,
            copy.attributes@ == self.attributes@,
    {
        let mut attributes: Vec<AttributeMapping<F>> = Vec::new();
        for i in 0..self.attributes.len()
            invariant
                attributes@ == self.attributes@.take(i as int),
        {
            attributes.push(self.attributes[i]);
            assert(attributes@ =~= self.attributes@.take(i + 1));
        }
        assert(attributes@ =~= self.attributes@);
        VertexBufferMapping {
            id: self.id,
            stride: self.stride,
            step_mode: self.step_mode,
            attributes,
        }
    }
}

/// What binding resources for one stage of a pipeline takes, with vertex attributes of format `F`.
#[derive(Debug)]
pub struct PipelineStageInfo<F> {
    pub push_constants: Option<PushConstantsInfo>,
    /// The buffer argument table index at which the sizes of the buffers of runtime-sized arrays
    /// are passed.
    pub sizes_slot: Option<Slot>,
    /// Bindings of all `storage` globals that contain runtime-sized arrays.
    pub sized_bindings: Vec<ResourceBinding>,
    /// Info on all bound vertex buffers.
    pub vertex_buffer_mappings: Vec<VertexBufferMapping<F>>,
}

/// The contents of a [`PipelineStageInfo`].
pub struct PipelineStageInfoView<F> {
    pub push_constants: Option<PushConstantsInfo>,
    pub sizes_slot: Option<Slot>,
    pub sized_bindings: Seq<ResourceBinding>,
    pub vertex_buffer_mappings: Seq<VertexBufferMappingView<F>>,
}

impl<F> View for PipelineStageInfo<F> {
    type V = PipelineStageInfoView<F>;

    open spec fn view(&self) -> PipelineStageInfoView<F> {
        PipelineStageInfoView {
            push_constants: self.push_constants,
            sizes_slot: self.sizes_slot,
            sized_bindings: self.sized_bindings@,
            vertex_buffer_mappings: self.vertex_buffer_mappings@.map_values(
                |mapping: VertexBufferMapping<F>| mapping@,
            ),
        }
    }
}

/// Nothing is bound.
pub open spec fn nothing_bound<F>() -> PipelineStageInfoView<F> {
    PipelineStageInfoView {
        push_constants: None,
        sizes_slot: None,
        sized_bindings: Seq::empty(),
        vertex_buffer_mappings: Seq::empty(),
    }
}

impl<F> PipelineStageInfo<F> {
    /// Unbinds everything.
    pub fn clear(&mut self)
        ensures
            final(self)@ == nothing_bound::<F>(),
            final(self).push_constants is None,
            final(self).sizes_slot is None,
            final(self).sized_bindings@.len() == 0,
            final(self).vertex_buffer_mappings@.len() == 0,
    {
        self.push_constants = None;
        self.sizes_slot = None;
        self.sized_bindings.clear();
        self.vertex_buffer_mappings.clear();
        assert(self@.vertex_buffer_mappings =~= nothing_bound::<F>().vertex_buffer_mappings);
    }

    /// Takes over everything from `other`.
    pub fn assign_from(&mut self, other: &Self) where F: Copy
        ensures
            final(self)@ == other@,
            final(self).push_constants == other.push_constants,
            final(self).sizes_slot == other.sizes_slot,
            final(self).sized_bindings@ == other.sized_bindings@,
            final(self).vertex_buffer_mappings@.len() == other.vertex_buffer_mappings@.len(),
            forall|i: int|
                #![trigger final(self).vertex_buffer_mappings@[i]]
                0 <= i < other.vertex_buffer_mappings@.len() ==> ({
                    let ours = final(self).vertex_buffer_mappings@[i];
                    let theirs = other.vertex_buffer_mappings@[i];
                    &&& ours.id == theirs.id
                    &&& ours.stride == theirs.stride
                    &&& ours.step_mode == theirs.step_mode
                    &&& ours.attributes@ == theirs.attributes@
                }),
    {
        self.push_constants = other.push_constants;
        self.sizes_slot = other.sizes_slot;
        self.sized_bindings.clear();
        self.sized_bindings.extend_from_slice(&other.sized_bindings);
        assert(self.sized_bindings@ =~= other.sized_bindings@);
        self.vertex_buffer_mappings.clear();
        self.vertex_buffer_mappings.extend_from_slice(&other.vertex_buffer_mappings);
        assert(self@.vertex_buffer_mappings =~= other@.vertex_buffer_mappings);
        proof {
            law_equal_contents_are_equal_fields(*self, *other);
        }
    }
}

impl<F> Default for PipelineStageInfo<F> {
    /// A stage with nothing bound.
    fn default() -> (info: Self)
        ensures
            info@ == nothing_bound::<F>(),
            info.push_constants is None,
            info.sizes_slot is None,
            info.sized_bindings@.len() == 0,
            info.vertex_buffer_mappings@.len() == 0,
    {
        let info = PipelineStageInfo {
            push_constants: None,
            sizes_slot: None,
            sized_bindings: Vec::new(),
            vertex_buffer_mappings: Vec::new(),
        };
        assert(info@.vertex_buffer_mappings =~= nothing_bound::<F>().vertex_buffer_mappings);
        info
    }
}

/// Two infos have the same contents exactly if they agree in each field and, of the vertex buffer
/// mappings, in each field of each.
pub proof fn law_equal_contents_are_equal_fields<F>(a: PipelineStageInfo<F>, b: PipelineStageInfo<F>)
    ensures
        a@ == b@ <==> {
            &&& a.push_constants == b.push_constants
            &&& a.sizes_slot == b.sizes_slot
            &&& a.sized_bindings@ == b.sized_bindings@
            &&& a.vertex_buffer_mappings@.len() == b.vertex_buffer_mappings@.len()
            &&& forall|i: int|
                #![trigger a.vertex_buffer_mappings@[i]]
                0 <= i < a.vertex_buffer_mappings@.len() ==> ({
                    let ours = a.vertex_buffer_mappings@[i];
                    let theirs = b.vertex_buffer_mappings@[i];
                    &&& ours.id == theirs.id
                    &&& ours.stride == theirs.stride
                    &&& ours.step_mode == theirs.step_mode
                    &&& ours.attributes@ == theirs.attributes@
                })
        },
{
    let contents = |mapping: VertexBufferMapping<F>| mapping@;
    let (ours, theirs) = (a.vertex_buffer_mappings@, b.vertex_buffer_mappings@);
    if a@ == b@ {
        assert(ours.map_values(contents) == theirs.map_values(contents));
        assert(ours.map_values(contents).len() == theirs.map_values(contents).len());
        assert forall|i: int| 0 <= i < ours.len() implies (#[trigger] ours[i])@ == theirs[i]@ by {
            assert(ours.map_values(contents)[i] == theirs.map_values(contents)[i]);
        }
    } else if a.push_constants == b.push_constants && a.sizes_slot == b.sizes_slot
        && a.sized_bindings@ == b.sized_bindings@ && ours.len() == theirs.len() {
        assert(ours.map_values(contents) != theirs.map_values(contents));
        if forall|i: int| 0 <= i < ours.len() ==> (#[trigger] ours[i])@ == theirs[i]@ {
            assert(ours.map_values(contents) =~= theirs.map_values(contents));
        }
    }
}

/// The last assignment wins: two infos that were assigned from `other` last, whatever they held
/// before, agree with each other and with `other` in everything.
pub proof fn law_last_assignment_wins<F>(
    a: PipelineStageInfo<F>,
    b: PipelineStageInfo<F>,
    other: PipelineStageInfo<F>,
)
    requires
        a@ == other@,
        b@ == other@,
    ensures
        a@ == b@,
        a.push_constants == other.push_constants,
        a.sizes_slot == other.sizes_slot,
        a.sized_bindings@ == other.sized_bindings@,
        a.vertex_buffer_mappings@.len() == other.vertex_buffer_mappings@.len(),
        forall|i: int|
            0 <= i < other.vertex_buffer_mappings@.len() ==> (
            #[trigger] a.vertex_buffer_mappings@[i])@ == other.vertex_buffer_mappings@[i]@,
{
    let contents = |mapping: VertexBufferMapping<F>| mapping@;
    let (ours, theirs) = (a.vertex_buffer_mappings@, other.vertex_buffer_mappings@);
    assert(ours.map_values(contents) == theirs.map_values(contents));
    assert(ours.map_values(contents).len() == theirs.map_values(contents).len());
    assert forall|i: int| 0 <= i < theirs.len() implies (#[trigger] ours[i])@ == theirs[i]@ by {
        assert(ours.map_values(contents)[i] == theirs.map_values(contents)[i]);
    }
}

/// An info that was assigned from one with nothing bound is like one that was cleared.
pub proof fn law_assigning_nothing_clears<F>(
    assigned: PipelineStageInfo<F>,
    cleared: PipelineStageInfo<F>,
    other: PipelineStageInfo<F>,
)
    requires
        other@ == nothing_bound::<F>(),
        assigned@ == other@,
        cleared@ == nothing_bound::<F>(),
    ensures
        assigned@ == cleared@,
        assigned.sized_bindings@.len() == 0,
        assigned.vertex_buffer_mappings@.len() == 0,
{
    assert(assigned@.vertex_buffer_mappings.len() == 0);
}

/// How many bind groups a pipeline can have.
pub const MAX_BIND_GROUPS: usize = 8;

/// Where the resources of a bind group begin.
#[derive(Debug)]
pub struct BindGroupLayoutInfo {
    pub base_resource_indices: MultiStageResourceCounters,
}

/// `arrayvec::ArrayVec`, a vector that holds at most `CAP` items.
#[verifier::external_type_specification]
#[verifier::external_body]
#[verifier::reject_recursive_types(T)]
pub struct ExArrayVec<T, const CAP: usize>(arrayvec::ArrayVec<T, CAP>);

/// The items of an `ArrayVec` of bind groups, in order.
pub uninterp spec fn groups_of(
    infos: arrayvec::ArrayVec<BindGroupLayoutInfo, MAX_BIND_GROUPS>,
) -> Seq<BindGroupLayoutInfo>;

/// `ArrayVec::as_slice`: the slice holds all items of the vector, which are no more than its
/// capacity.
#[verifier::external_body]
fn group_slice(infos: &arrayvec::ArrayVec<BindGroupLayoutInfo, MAX_BIND_GROUPS>) -> (groups: &[
    BindGroupLayoutInfo
])
    ensures
        groups@ == groups_of(*infos),
        groups@.len() <= MAX_BIND_GROUPS,
{
    infos.as_slice()
}

/// Where the resources of a pipeline are bound. `M` maps the bindings of a stage to native ones.
///
/// In the binding tables of a stage the push constants come first, if there are any, followed by
/// the resources of bind group 0, followed by those of the other bind groups. Whoever builds a
/// layout sees to that, and [`PipelineLayout::is_well_formed`] tells whether it is so.
#[derive(Debug)]
pub struct PipelineLayout<M> {
    pub bind_group_infos: arrayvec::ArrayVec<BindGroupLayoutInfo, MAX_BIND_GROUPS>,
    pub push_constants_infos: MultiStageData<Option<PushConstantsInfo>>,
    pub total_counters: MultiStageResourceCounters,
    pub total_push_constants: u32,
    pub per_stage_map: MultiStageData<M>,
}

/// No table index of `a` is beyond that of `b`.
pub open spec fn not_beyond(a: ResourceData<ResourceIndex>, b: ResourceData<ResourceIndex>) -> bool {
    &&& a.buffers <= b.buffers
    &&& a.textures <= b.textures
    &&& a.samplers <= b.samplers
}

impl<M> PipelineLayout<M> {
    /// The bind groups, in order.
    pub open spec fn groups(self) -> Seq<BindGroupLayoutInfo> {
        groups_of(self.bind_group_infos)
    }

    /// Where bind group `group` begins in the tables of `stage`; beyond the last group, where the
    /// tables end.
    pub open spec fn group_start(self, stage: ShaderStage, group: int) -> ResourceData<
        ResourceIndex,
    > {
        if group < self.groups().len() {
            self.groups()[group].base_resource_indices.at(stage)
        } else {
            self.total_counters.at(stage)
        }
    }

    /// The tables of `stage` hold the push constants, then one bind group after another.
    pub open spec fn stage_in_order(self, stage: ShaderStage) -> bool {
        let push_constants = self.push_constants_infos.at(stage);
        let first = self.group_start(stage, 0);
        &&& push_constants matches Some(info) ==> info.buffer_index == 0
        &&& first.buffers >= if push_constants is Some { 1int } else { 0int }
        &&& forall|group: int|
            #![trigger self.groups()[group]]
            0 <= group < self.groups().len() ==> not_beyond(
                self.group_start(stage, group),
                self.group_start(stage, group + 1),
            )
    }

    /// The tables of every stage are in order.
    pub open spec fn well_formed(self) -> bool {
        forall|stage: ShaderStage| stage.is_kept() ==> #[trigger] self.stage_in_order(stage)
    }

    /// Whether the tables of `stage` hold the push constants, then one bind group after another.
    fn is_stage_in_order(&self, stage: ShaderStage) -> (in_order: bool)
        requires
            stage.is_kept(),
        ensures
            in_order == self.stage_in_order(stage),
            self.groups().len() <= MAX_BIND_GROUPS,
    {
        let groups = group_slice(&self.bind_group_infos);
        let push_constants = self.push_constants_infos[stage];
        let end = &self.total_counters[stage];
        let first: ResourceIndex = if groups.len() > 0 {
            groups[0].base_resource_indices[stage].buffers
        } else {
            end.buffers
        };
        if let Some(info) = push_constants {
            if info.buffer_index != 0 || first < 1 {
                return false;
            }
        }
        for group in 0..groups.len()
            invariant
                stage.is_kept(),
                groups@ == self.groups(),
                groups@.len() <= MAX_BIND_GROUPS,
                *end == self.total_counters.at(stage),
                forall|g: int|
                    #![trigger self.groups()[g]]
                    0 <= g < group ==> not_beyond(
                        self.group_start(stage, g),
                        self.group_start(stage, g + 1),
                    ),
        {
            let start = &groups[group].base_resource_indices[stage];
            let next = if group + 1 < groups.len() {
                &groups[group + 1].base_resource_indices[stage]
            } else {
                end
            };
            assert(*start == self.group_start(stage, group as int));
            assert(*next == self.group_start(stage, group + 1));
            if start.buffers > next.buffers || start.textures > next.textures || start.samplers
                > next.samplers {
                assert(self.groups()[group as int] == groups@[group as int]);
                return false;
            }
        }
        true
    }

    /// Whether the tables of every stage are in order. In any case there are no more bind groups
    /// than a pipeline can have.
    pub fn is_well_formed(&self) -> (well_formed: bool)
        ensures
            well_formed == self.well_formed(),
            self.groups().len() <= MAX_BIND_GROUPS,
            groups_of(self.bind_group_infos).len() <= 8,
    {
        let vs = self.is_stage_in_order(ShaderStage::Vertex);
        let fs = self.is_stage_in_order(ShaderStage::Fragment);
        let cs = self.is_stage_in_order(ShaderStage::Compute);
        vs && fs && cs
    }

    /// In the buffer table of `stage`, `slot` is at or after the beginning of bind group `group` and
    /// before what comes after the group.
    pub open spec fn is_in_buffers_of(self, stage: ShaderStage, group: int, slot: int) -> bool {
        self.group_start(stage, group).buffers <= slot < self.group_start(stage, group + 1).buffers
    }

    /// In the texture table of `stage`, `slot` is at or after the beginning of bind group `group` and
    /// before what comes after the group.
    pub open spec fn is_in_textures_of(self, stage: ShaderStage, group: int, slot: int) -> bool {
        self.group_start(stage, group).textures <= slot < self.group_start(
            stage,
            group + 1,
        ).textures
    }

    /// In the sampler table of `stage`, `slot` is at or after the beginning of bind group `group` and
    /// before what comes after the group.
    pub open spec fn is_in_samplers_of(self, stage: ShaderStage, group: int, slot: int) -> bool {
        self.group_start(stage, group).samplers <= slot < self.group_start(
            stage,
            group + 1,
        ).samplers
    }
}

/// Bind groups begin one after another.
proof fn lemma_groups_ascend<M>(
    layout: PipelineLayout<M>,
    stage: ShaderStage,
    a: int,
    b: int,
)
    requires
        layout.stage_in_order(stage),
        0 <= a <= b <= layout.groups().len(),
    ensures
        not_beyond(layout.group_start(stage, a), layout.group_start(stage, b)),
    decreases b - a,
{
    if a < b {
        lemma_groups_ascend(layout, stage, a, b - 1);
        let _ = layout.groups()[b - 1];
        assert(not_beyond(layout.group_start(stage, b - 1), layout.group_start(stage, b)));
    }
}

/// A pipeline layout is well formed exactly if the tables of the three stages are in order.
pub proof fn law_well_formed_in_every_stage<M>(layout: PipelineLayout<M>)
    ensures
        layout.well_formed() <==> layout.stage_in_order(ShaderStage::Vertex)
            && layout.stage_in_order(ShaderStage::Fragment) && layout.stage_in_order(
            ShaderStage::Compute,
        ),
{
    if layout.well_formed() {
        assert(ShaderStage::Vertex.is_kept());
        assert(ShaderStage::Fragment.is_kept());
        assert(ShaderStage::Compute.is_kept());
    }
}

/// The tables of a stage are in order exactly if the push constants are in buffer 0 with every bind
/// group and the end of the table after them, no bind group begins before an earlier one, and none
/// begins beyond the end of the tables.
pub proof fn law_stage_order_is_that_of_groups<M>(layout: PipelineLayout<M>, stage: ShaderStage)
    ensures
        ({
            let groups = groups_of(layout.bind_group_infos);
            let end = layout.total_counters.at(stage);
            layout.stage_in_order(stage) <==> {
                &&& layout.push_constants_infos.at(stage) matches Some(info) ==> info.buffer_index
                    == 0 && end.buffers > 0
                &&& layout.push_constants_infos.at(stage) is Some ==> forall|g: int|
                    0 <= g < groups.len() ==> (#[trigger] groups[g]).base_resource_indices.at(
                        stage,
                    ).buffers > 0
                &&& forall|a: int, b: int|
                    #![trigger groups[a], groups[b]]
                    0 <= a < b < groups.len() ==> {
                        let earlier = groups[a].base_resource_indices.at(stage);
                        let later = groups[b].base_resource_indices.at(stage);
                        &&& earlier.buffers <= later.buffers
                        &&& earlier.textures <= later.textures
                        &&& earlier.samplers <= later.samplers
                    }
                &&& forall|g: int|
                    #![trigger groups[g]]
                    0 <= g < groups.len() ==> {
                        let start = groups[g].base_resource_indices.at(stage);
                        &&& start.buffers <= end.buffers
                        &&& start.textures <= end.textures
                        &&& start.samplers <= end.samplers
                    }
            }
        }),
{
    let groups = groups_of(layout.bind_group_infos);
    let end = layout.total_counters.at(stage);
    let count = groups.len() as int;
    assert(layout.group_start(stage, count) == end);
    if layout.stage_in_order(stage) {
        assert forall|a: int, b: int|
            #![trigger groups[a], groups[b]]
            0 <= a < b < count implies not_beyond(
            groups[a].base_resource_indices.at(stage),
            groups[b].base_resource_indices.at(stage),
        ) by {
            lemma_groups_ascend(layout, stage, a, b);
        }
        assert forall|g: int| #![trigger groups[g]] 0 <= g < count implies not_beyond(
            groups[g].base_resource_indices.at(stage),
            end,
        ) && not_beyond(
            layout.group_start(stage, 0),
            groups[g].base_resource_indices.at(stage),
        ) by {
            lemma_groups_ascend(layout, stage, g, count);
            lemma_groups_ascend(layout, stage, 0, g);
        }
        lemma_groups_ascend(layout, stage, 0, count);
    } else {
        let push_constants = layout.push_constants_infos.at(stage);
        if push_constants matches Some(info) ==> info.buffer_index == 0 {
            if count > 0 {
                assert(layout.group_start(stage, 0)
                    == groups[0].base_resource_indices.at(stage));
            }
            if layout.group_start(stage, 0).buffers >= if push_constants is Some {
                1int
            } else {
                0int
            } {
                let g = choose|g: int|
                    #![trigger layout.groups()[g]]
                    0 <= g < count && !not_beyond(
                        layout.group_start(stage, g),
                        layout.group_start(stage, g + 1),
                    );
                assert(layout.group_start(stage, g) == groups[g].base_resource_indices.at(stage));
                if g + 1 < count {
                    assert(layout.group_start(stage, g + 1) == groups[g
                        + 1].base_resource_indices.at(stage));
                }
            }
        }
    }
}

/// A bind group takes up, in each table of a stage, the places from where it begins up to where
/// the next bind group begins or, for the last one, up to the end of the table.
pub proof fn law_bind_groups_reach_the_next<M>(
    layout: PipelineLayout<M>,
    stage: ShaderStage,
    group: int,
    slot: int,
)
    requires
        0 <= group < groups_of(layout.bind_group_infos).len(),
    ensures
        ({
            let groups = groups_of(layout.bind_group_infos);
            let start = groups[group].base_resource_indices.at(stage);
            let next = if group + 1 == groups.len() {
                layout.total_counters.at(stage)
            } else {
                groups[group + 1].base_resource_indices.at(stage)
            };
            &&& layout.groups() == groups
            &&& layout.is_in_buffers_of(stage, group, slot) <==> start.buffers <= slot
                < next.buffers
            &&& layout.is_in_textures_of(stage, group, slot) <==> start.textures <= slot
                < next.textures
            &&& layout.is_in_samplers_of(stage, group, slot) <==> start.samplers <= slot
                < next.samplers
        }),
{
}

/// In a pipeline layout, what belongs to a later bind group comes after all that belongs to an
/// earlier one, in every table of every stage.
pub proof fn law_bind_groups_in_order<M>(
    layout: PipelineLayout<M>,
    stage: ShaderStage,
    a: int,
    b: int,
    slot_a: int,
    slot_b: int,
)
    requires
        layout.well_formed(),
        stage.is_kept(),
        0 <= a < b < layout.groups().len(),
    ensures
        layout.is_in_buffers_of(stage, a, slot_a) && layout.is_in_buffers_of(stage, b, slot_b) ==> slot_a
            < slot_b,
        layout.is_in_textures_of(stage, a, slot_a) && layout.is_in_textures_of(stage, b, slot_b) ==> slot_a
            < slot_b,
        layout.is_in_samplers_of(stage, a, slot_a) && layout.is_in_samplers_of(stage, b, slot_b) ==> slot_a
            < slot_b,
{
    lemma_groups_ascend(layout, stage, a + 1, b);
}

/// In a pipeline layout, the buffer with the push constants of a stage comes before the buffers of
/// all bind groups.
pub proof fn law_push_constants_first<M>(
    layout: PipelineLayout<M>,
    stage: ShaderStage,
    group: int,
    slot: int,
)
    requires
        layout.well_formed(),
        stage.is_kept(),
        0 <= group < layout.groups().len(),
        layout.is_in_buffers_of(stage, group, slot),
    ensures
        layout.push_constants_infos.at(stage) matches Some(info) ==> info.buffer_index < slot,
{
    assert(layout.stage_in_order(stage));
    lemma_groups_ascend(layout, stage, 0, group);
    assert(layout.group_start(stage, 0).buffers <= slot);
}

/// A cache of pipelines. There is none yet.
#[derive(Debug)]
pub struct PipelineCache;

} // verus!
