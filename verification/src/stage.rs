//! Data that exists once per shader stage.

use core::ops::Index;
use vstd::prelude::*;

verus! {

/// An index into one of the native binding tables.
pub type ResourceIndex = u32;

/// A stage of a render or compute pipeline.
#[derive(Clone, Copy, Debug, PartialEq, Eq, Structural)]
pub enum ShaderStage {
    Vertex,
    Task,
    Mesh,
    Fragment,
    Compute,
}

impl ShaderStage {
    /// Whether this backend keeps data for the stage. It has no task and mesh stages.
    pub open spec fn is_kept(self) -> bool {
        self is Vertex || self is Fragment || self is Compute
    }
}

/// One value for each native binding table.
#[derive(Debug)]
pub struct ResourceData<T> {
    pub buffers: T,
    pub textures: T,
    pub samplers: T,
}

impl<T: Clone> Clone for ResourceData<T> {
    fn clone(&self) -> (copy: Self)
        ensures
            cloned(self.buffers, copy.buffers),
            cloned(self.textures, copy.textures),
            cloned(self.samplers, copy.samplers),
    {
        ResourceData {
            buffers: self.buffers.clone(),
            textures: self.textures.clone(),
            samplers: self.samplers.clone(),
        }
    }
}

impl<T: Default> Default for ResourceData<T> {
    /// Every table holds the default of `T`.
    fn default() -> (data: Self)
        ensures
            call_ensures(T::default, (), data.buffers),
            call_ensures(T::default, (), data.textures),
            call_ensures(T::default, (), data.samplers),
    {
        ResourceData { buffers: T::default(), textures: T::default(), samplers: T::default() }
    }
}

/// One value for each shader stage that the backend keeps.
#[derive(Debug)]
pub struct MultiStageData<T> {
    pub vs: T,
    pub fs: T,
    pub cs: T,
}

/// How many entries of each binding table every stage uses.
pub type MultiStageResourceCounters = MultiStageData<ResourceData<ResourceIndex>>;

/// Each kept stage, in its own place.
#[verifier::allow_in_spec]
pub fn naga_stages() -> MultiStageData<ShaderStage>
    returns
        (MultiStageData {
            vs: ShaderStage::Vertex,
            fs: ShaderStage::Fragment,
            cs: ShaderStage::Compute,
        }),
{
    MultiStageData {
        vs: ShaderStage::Vertex,
        fs: ShaderStage::Fragment,
        cs: ShaderStage::Compute,
    }
}

impl<T> MultiStageData<T> {
    /// The value that belongs to `stage`.
    pub open spec fn at(self, stage: ShaderStage) -> T
        recommends
            stage.is_kept(),
    {
        match stage {
            ShaderStage::Vertex => self.vs,
            ShaderStage::Fragment => self.fs,
            _ => self.cs,
        }
    }

    /// The three values in the order in which they are visited.
    pub open spec fn items(self) -> Seq<T> {
        seq![self.vs, self.fs, self.cs]
    }
}

impl<T: Clone> Clone for MultiStageData<T> {
    fn clone(&self) -> (copy: Self)
        ensures
            cloned(self.vs, copy.vs),
            cloned(self.fs, copy.fs),
            cloned(self.cs, copy.cs),
    {
        MultiStageData { vs: self.vs.clone(), fs: self.fs.clone(), cs: self.cs.clone() }
    }
}

impl<T: Default> Default for MultiStageData<T> {
    /// Every stage holds the default of `T`.
    fn default() -> (data: Self)
        ensures
            call_ensures(T::default, (), data.vs),
            call_ensures(T::default, (), data.fs),
            call_ensures(T::default, (), data.cs),
    {
        MultiStageData { vs: T::default(), fs: T::default(), cs: T::default() }
    }
}

impl<T> Index<ShaderStage> for MultiStageData<T> {
    type Output = T;

    /// The value that belongs to `stage`.
    fn index(&self, stage: ShaderStage) -> (value: &T)
        ensures
            *value == self.at(stage),
            stage is Vertex ==> *value == self.vs,
            stage is Fragment ==> *value == self.fs,
            stage is Compute ==> *value == self.cs,
    {
        match stage {
            ShaderStage::Vertex => &self.vs,
            ShaderStage::Fragment => &self.fs,
            ShaderStage::Compute => &self.cs,
            ShaderStage::Task | ShaderStage::Mesh => vstd::pervasive::unreached(),
        }
    }
}

impl<T> vstd::std_specs::core::IndexSpecImpl<ShaderStage> for MultiStageData<T> {
    open spec fn index_req(&self, stage: &ShaderStage) -> bool {
        stage.is_kept()
    }
}

impl<T> MultiStageData<T> {
    /// Applies `fun` to the value of each stage, in the order vertex, fragment, compute.
    pub fn map_ref<Y>(&self, fun: impl Fn(&T) -> Y) -> (mapped: MultiStageData<Y>)
        requires
            fun.requires((&self.vs,)),
            fun.requires((&self.fs,)),
            fun.requires((&self.cs,)),
        ensures
            fun.ensures((&self.vs,), mapped.vs),
            fun.ensures((&self.fs,), mapped.fs),
            fun.ensures((&self.cs,), mapped.cs),
    {
        MultiStageData { vs: fun(&self.vs), fs: fun(&self.fs), cs: fun(&self.cs) }
    }

    /// Turns the value of each stage into another one with `fun`, in the order vertex, fragment,
    /// compute.
    pub fn map<Y>(self, fun: impl Fn(T) -> Y) -> (mapped: MultiStageData<Y>)
        requires
            fun.requires((self.vs,)),
            fun.requires((self.fs,)),
            fun.requires((self.cs,)),
        ensures
            fun.ensures((self.vs,), mapped.vs),
            fun.ensures((self.fs,), mapped.fs),
            fun.ensures((self.cs,), mapped.cs),
    {
        MultiStageData { vs: fun(self.vs), fs: fun(self.fs), cs: fun(self.cs) }
    }

    /// The values in the order vertex, fragment, compute.
    pub fn iter<'a>(&'a self) -> (values: Vec<&'a T>)
        ensures
            values@.len() == self.items().len(),
            values@.len() == 3,
            *values@[0] == self.vs,
            *values@[1] == self.fs,
            *values@[2] == self.cs,
            forall|i: int| 0 <= i < values@.len() ==> *(#[trigger] values@[i]) == self.items()[i],
    {
        let mut values: Vec<&'a T> = Vec::new();
        values.push(&self.vs);
        values.push(&self.fs);
        values.push(&self.cs);
        values
    }

    /// The values in the order vertex, fragment, compute, open to change: what is written through
    /// a reference becomes the value of its stage.
    pub fn iter_mut<'a>(&'a mut self) -> (values: Vec<&'a mut T>)
        ensures
            values@.len() == old(self).items().len(),
            values@.len() == 3,
            *values@[0] == old(self).vs,
            *values@[1] == old(self).fs,
            *values@[2] == old(self).cs,
            forall|i: int|
                0 <= i < values@.len() ==> *(#[trigger] values@[i]) == old(self).items()[i],
            final(self).vs == *final(values@[0]),
            final(self).fs == *final(values@[1]),
            final(self).cs == *final(values@[2]),
    {
        let mut values: Vec<&'a mut T> = Vec::new();
        values.push(&mut self.vs);
        values.push(&mut self.fs);
        values.push(&mut self.cs);
        values
    }
}

/// `naga_stages` holds every kept stage in the place that the stage itself selects.
pub proof fn law_stages_select_themselves(stage: ShaderStage)
    requires
        stage.is_kept(),
    ensures
        naga_stages().at(stage) == stage,
{
}

/// Every stage but the task and mesh stages is kept, and each has a value of its own.
pub proof fn law_stages_have_their_own_values<T>(data: MultiStageData<T>, stage: ShaderStage)
    ensures
        stage.is_kept() <==> !(stage is Task) && !(stage is Mesh),
        data.at(ShaderStage::Vertex) == data.vs,
        data.at(ShaderStage::Fragment) == data.fs,
        data.at(ShaderStage::Compute) == data.cs,
{
}

/// The values are visited once each, in the order vertex, fragment, compute.
pub proof fn law_walk_visits_each_value_once<T>(data: MultiStageData<T>)
    ensures
        data.items().len() == 3,
        data.items()[0] == data.vs,
        data.items()[1] == data.fs,
        data.items()[2] == data.cs,
{
}

/// Walking over stage data meets the values of the stages in the order in which walking over
/// `naga_stages` meets the stages.
pub proof fn law_walk_follows_stages<T>(data: MultiStageData<T>, i: int)
    requires
        0 <= i < data.items().len(),
    ensures
        naga_stages().items().len() == data.items().len(),
        naga_stages().items()[i].is_kept(),
        data.items()[i] == data.at(naga_stages().items()[i]),
{
}

/// The values of the kept stages are all there is to stage data.
pub proof fn law_stages_determine_data<T>(a: MultiStageData<T>, b: MultiStageData<T>)
    requires
        forall|stage: ShaderStage| stage.is_kept() ==> #[trigger] a.at(stage) == b.at(stage),
    ensures
        a == b,
{
    assert(a.at(ShaderStage::Vertex) == b.at(ShaderStage::Vertex));
    assert(a.at(ShaderStage::Fragment) == b.at(ShaderStage::Fragment));
    assert(a.at(ShaderStage::Compute) == b.at(ShaderStage::Compute));
}

} // verus!
