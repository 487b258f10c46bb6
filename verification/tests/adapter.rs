use metal_hal::capabilities::{
    INSIDE_WGPU_PASSES, ON_BLIT_ENCODER, ON_COMPUTE_ENCODER, ON_RENDER_ENCODER, STAGE_BOUNDARIES,
};
use metal_hal::{
    AdapterShared, ArgumentBuffersTier, Backend, DeviceType, ExposedAdapter, FoundDevice, Instance,
    LanguageVersion, PrivateCapabilities, PrivateDisabilities, ReadWriteTextureTier, Settings,
    TextureFormatCapabilities, TimestampQuerySupport,
};

fn capabilities(low_power: bool, headless: bool) -> PrivateCapabilities {
    PrivateCapabilities {
        family_check: false,
        msl_version: LanguageVersion::V2_4,
        fragment_rw_storage: false,
        read_write_texture_tier: ReadWriteTextureTier::Tier1,
        msaa_desktop: false,
        msaa_apple3: false,
        msaa_apple7: false,
        resource_heaps: false,
        argument_buffers: ArgumentBuffersTier::Tier2,
        shared_textures: false,
        mutable_comparison_samplers: false,
        sampler_clamp_to_border: false,
        indirect_draw_dispatch: false,
        base_vertex_first_instance_drawing: false,
        dual_source_blending: false,
        low_power,
        headless,
        layered_rendering: false,
        function_specialization: false,
        depth_clip_mode: false,
        texture_cube_array: false,
        supports_float_filtering: false,
        format_depth24_stencil8: false,
        format_depth32_stencil8_filter: false,
        format_depth32_stencil8_none: false,
        format_min_srgb_channels: 0,
        format_b5: false,
        format_bc: false,
        format_eac_etc: false,
        format_astc: false,
        format_astc_hdr: false,
        format_astc_3d: false,
        format_any8_unorm_srgb_all: false,
        format_any8_unorm_srgb_no_write: false,
        format_any8_snorm_all: false,
        format_r16_norm_all: false,
        format_r32_all: false,
        format_r32_no_write: false,
        format_r32float_no_write_no_filter: false,
        format_r32float_no_filter: false,
        format_r32float_all: false,
        format_rgba8_srgb_all: false,
        format_rgba8_srgb_no_write: false,
        format_rgb10a2_unorm_all: false,
        format_rgb10a2_unorm_no_write: false,
        format_rgb10a2_uint_write: false,
        format_rg11b10_all: false,
        format_rg11b10_no_write: false,
        format_rgb9e5_all: false,
        format_rgb9e5_no_write: false,
        format_rgb9e5_filter_only: false,
        format_rg32_color: false,
        format_rg32_color_write: false,
        format_rg32float_all: false,
        format_rg32float_color_blend: false,
        format_rg32float_no_filter: false,
        format_rgba32int_color: false,
        format_rgba32int_color_write: false,
        format_rgba32float_color: false,
        format_rgba32float_color_write: false,
        format_rgba32float_all: false,
        format_depth16unorm: false,
        format_depth32float_filter: false,
        format_depth32float_none: false,
        format_bgr10a2_all: false,
        format_bgr10a2_no_write: false,
        max_buffers_per_stage: 0,
        max_vertex_buffers: 0,
        max_textures_per_stage: 0,
        max_samplers_per_stage: 0,
        max_binding_array_elements: 0,
        max_sampler_binding_array_elements: 0,
        buffer_alignment: 0,
        max_buffer_size: 0,
        max_texture_size: 0,
        max_texture_3d_size: 0,
        max_texture_layers: 0,
        max_fragment_input_components: 0,
        max_color_render_targets: 0,
        max_color_attachment_bytes_per_sample: 0,
        max_varying_components: 0,
        max_threads_per_group: 0,
        max_total_threadgroup_memory: 0,
        sample_count_mask: TextureFormatCapabilities { bits: 0 },
        supports_debug_markers: false,
        supports_binary_archives: false,
        supports_capture_manager: false,
        can_set_maximum_drawables_count: false,
        can_set_display_sync: false,
        can_set_next_drawable_timeout: false,
        supports_arrays_of_textures: false,
        supports_arrays_of_textures_write: false,
        supports_mutability: false,
        supports_depth_clip_control: false,
        supports_preserve_invariance: false,
        supports_shader_primitive_index: false,
        has_unified_memory: None,
        timestamp_query_support: TimestampQuerySupport::empty(),
        supports_simd_scoped_operations: false,
        int64: false,
        int64_atomics: false,
        float_atomics: false,
        supports_shared_event: false,
    }
}

fn disabilities() -> PrivateDisabilities {
    PrivateDisabilities { broken_viewport_near_depth: true, broken_layered_clear_image: false }
}

fn found(name: &str, low_power: bool, headless: bool) -> FoundDevice<u32, u8, char, i16> {
    FoundDevice {
        name: name.to_string(),
        device: 77,
        private_caps: capabilities(low_power, headless),
        disabilities: disabilities(),
        presentation_timer: 5,
        device_type: DeviceType::IntegratedGpu,
        features: 'f',
        capabilities: -3,
    }
}

fn names(found: Vec<FoundDevice<u32, u8, char, i16>>) -> Vec<String> {
    let adapters: Vec<ExposedAdapter<u32, u8, char, i16>> = Instance {}.enumerate_adapters(found);
    adapters.into_iter().map(|adapter| adapter.info.name).collect()
}

#[test]
fn shared_state_starts_with_default_settings() {
    let shared = AdapterShared::new("device", capabilities(true, false), disabilities(), 'c');
    assert_eq!(shared.device, "device");
    assert!(shared.private_caps.low_power);
    assert!(!shared.private_caps.headless);
    assert!(shared.disabilities.broken_viewport_near_depth);
    assert!(!shared.disabilities.broken_layered_clear_image);
    assert_eq!(shared.presentation_timer, 'c');
    assert_eq!(shared.settings, Settings::default());
    assert!(!Settings::default().retain_command_buffer_references);
}

#[test]
fn an_adapter_tells_what_was_found() {
    let adapters = Instance {}.enumerate_adapters(vec![found("GPU", true, true)]);
    assert_eq!(adapters.len(), 1);
    let adapter = &adapters[0];
    assert_eq!(adapter.info.name, "GPU");
    assert_eq!((adapter.info.vendor, adapter.info.device), (0, 0));
    assert_eq!(adapter.info.device_type, DeviceType::IntegratedGpu);
    assert_eq!(adapter.info.driver, "");
    assert_eq!(adapter.info.driver_info, "");
    assert_eq!(adapter.info.backend, Backend::Metal);
    assert_eq!(adapter.features, 'f');
    assert_eq!(adapter.capabilities, -3);
    assert_eq!(adapter.adapter.shared.device, 77);
    assert!(adapter.adapter.shared.private_caps.low_power);
    assert_eq!(adapter.adapter.shared.presentation_timer, 5);
}

#[test]
fn no_device_no_adapter() {
    assert!(names(vec![]).is_empty());
}

#[test]
fn adapters_come_by_power_and_then_by_display() {
    let found = vec![
        found("low headless", true, true),
        found("low", true, false),
        found("headless", false, true),
        found("best", false, false),
    ];
    assert_eq!(names(found), vec!["best", "headless", "low", "low headless"]);
}

#[test]
fn alike_adapters_keep_their_order() {
    let found = vec![
        found("low 1", true, false),
        found("best 1", false, false),
        found("headless 1", false, true),
        found("low 2", true, false),
        found("best 2", false, false),
        found("low 3", true, false),
        found("headless 2", false, true),
    ];
    assert_eq!(
        names(found),
        vec!["best 1", "best 2", "headless 1", "headless 2", "low 1", "low 2", "low 3"]
    );
}

#[test]
fn sorting_agrees_with_a_stable_sort_by_key() {
    let mut expected: Vec<(bool, bool, String)> = Vec::new();
    let mut devices = Vec::new();
    for i in 0..64u32 {
        let (low_power, headless) = (i * 7 % 3 == 0, i * 5 % 4 < 2);
        let name = format!("device {}", i);
        devices.push(found(&name, low_power, headless));
        expected.push((low_power, headless, name));
    }
    expected.sort_by_key(|entry| (entry.0, entry.1));
    let expected: Vec<String> = expected.into_iter().map(|entry| entry.2).collect();
    assert_eq!(names(devices), expected);
}

#[test]
fn timestamp_flags_have_their_bits() {
    assert_eq!(TimestampQuerySupport::empty().bits(), 0);
    assert_eq!(TimestampQuerySupport::stage_boundaries().bits(), 2);
    assert_eq!(TimestampQuerySupport::on_render_encoder().bits(), 6);
    assert_eq!(TimestampQuerySupport::on_compute_encoder().bits(), 10);
    assert_eq!(TimestampQuerySupport::on_blit_encoder().bits(), 18);
    assert_eq!(TimestampQuerySupport::inside_wgpu_passes().bits(), 14);
    assert_eq!(
        (STAGE_BOUNDARIES, ON_RENDER_ENCODER, ON_COMPUTE_ENCODER, ON_BLIT_ENCODER),
        (2, 6, 10, 18)
    );
    assert_eq!(INSIDE_WGPU_PASSES, 14);
}

#[test]
fn encoder_support_comes_with_stage_boundaries() {
    let boundaries = TimestampQuerySupport::stage_boundaries();
    assert!(TimestampQuerySupport::on_render_encoder().contains(boundaries));
    assert!(TimestampQuerySupport::on_compute_encoder().contains(boundaries));
    assert!(TimestampQuerySupport::on_blit_encoder().contains(boundaries));
    assert!(!boundaries.contains(TimestampQuerySupport::on_render_encoder()));
    assert!(!TimestampQuerySupport::empty().contains(boundaries));
}

#[test]
fn passes_are_render_and_compute() {
    let mut flags = TimestampQuerySupport::on_render_encoder();
    assert!(!flags.contains(TimestampQuerySupport::inside_wgpu_passes()));
    flags.insert(TimestampQuerySupport::on_compute_encoder());
    assert!(flags.contains(TimestampQuerySupport::inside_wgpu_passes()));
    assert_eq!(flags, TimestampQuerySupport::inside_wgpu_passes());
    assert!(!flags.contains(TimestampQuerySupport::on_blit_encoder()));
}

#[test]
fn only_known_bits_make_flags() {
    assert_eq!(TimestampQuerySupport::from_bits(0), Some(TimestampQuerySupport::empty()));
    assert_eq!(TimestampQuerySupport::from_bits(30).unwrap().bits(), 30);
    assert_eq!(TimestampQuerySupport::from_bits(4).unwrap().bits(), 4);
    assert_eq!(TimestampQuerySupport::from_bits(1), None);
    assert_eq!(TimestampQuerySupport::from_bits(32), None);
    assert_eq!(TimestampQuerySupport::from_bits(u32::MAX), None);
}
