use metal_hal::{
    naga_stages, MultiStageData, MultiStageResourceCounters, ResourceData, ShaderStage,
};

fn numbers() -> MultiStageData<u32> {
    MultiStageData { vs: 1, fs: 2, cs: 3 }
}

#[test]
fn indexing_selects_the_value_of_the_stage() {
    let data = numbers();
    assert_eq!(data[ShaderStage::Vertex], 1);
    assert_eq!(data[ShaderStage::Fragment], 2);
    assert_eq!(data[ShaderStage::Compute], 3);
}

#[test]
fn map_ref_keeps_places() {
    let data = numbers();
    let mapped = data.map_ref(|value| value * 10);
    assert_eq!((mapped.vs, mapped.fs, mapped.cs), (10, 20, 30));
    assert_eq!((data.vs, data.fs, data.cs), (1, 2, 3));
}

#[test]
fn map_keeps_places() {
    let mapped = numbers().map(|value| format!("<{}>", value));
    assert_eq!(mapped.vs, "<1>");
    assert_eq!(mapped.fs, "<2>");
    assert_eq!(mapped.cs, "<3>");
}

#[test]
fn iter_goes_vertex_fragment_compute() {
    let data = numbers();
    let values: Vec<u32> = data.iter().into_iter().copied().collect();
    assert_eq!(values, vec![1, 2, 3]);
}

#[test]
fn iter_mut_writes_back() {
    let mut data = numbers();
    let mut step = 100;
    for value in data.iter_mut() {
        *value += step;
        step += 100;
    }
    assert_eq!((data.vs, data.fs, data.cs), (101, 202, 303));
}

#[test]
fn stages_select_themselves() {
    let stages = naga_stages();
    for stage in [ShaderStage::Vertex, ShaderStage::Fragment, ShaderStage::Compute] {
        assert_eq!(stages[stage], stage);
    }
}

#[test]
fn walk_follows_stages() {
    let data = numbers();
    let stages = naga_stages();
    let by_stage: Vec<u32> = stages.iter().into_iter().map(|stage| data[*stage]).collect();
    let walked: Vec<u32> = data.iter().into_iter().copied().collect();
    assert_eq!(by_stage, walked);
}

#[test]
fn stages_determine_data() {
    let a = numbers();
    let b = a.map_ref(|value| *value);
    for stage in [ShaderStage::Vertex, ShaderStage::Fragment, ShaderStage::Compute] {
        assert_eq!(a[stage], b[stage]);
    }
    assert_eq!((a.vs, a.fs, a.cs), (b.vs, b.fs, b.cs));
}

#[test]
fn counters_start_at_zero() {
    let counters = MultiStageResourceCounters::default();
    for stage in counters.iter() {
        assert_eq!((stage.buffers, stage.textures, stage.samplers), (0, 0, 0));
    }
}

#[test]
fn cloning_copies_every_table_and_stage() {
    let table = ResourceData { buffers: 4u32, textures: 5, samplers: 6 };
    let data = MultiStageData {
        vs: table.clone(),
        fs: ResourceData { buffers: 7, textures: 8, samplers: 9 },
        cs: ResourceData { buffers: 1, textures: 2, samplers: 3 },
    };
    let copy = data.clone();
    assert_eq!((copy.vs.buffers, copy.vs.textures, copy.vs.samplers), (4, 5, 6));
    assert_eq!((copy.fs.buffers, copy.fs.textures, copy.fs.samplers), (7, 8, 9));
    assert_eq!((copy.cs.buffers, copy.cs.textures, copy.cs.samplers), (1, 2, 3));
}
