//! What a device can do.

use crate::stage::ResourceIndex;
use vstd::prelude::*;

verus! {

/// The bit for timestamps on creating encoders.
pub const STAGE_BOUNDARIES: u32 = 1 << 1;

/// The bits for timestamps within existing draw encoders.
pub const ON_RENDER_ENCODER: u32 = STAGE_BOUNDARIES | (1 << 2);

/// The bits for timestamps within existing dispatch encoders.
pub const ON_COMPUTE_ENCODER: u32 = STAGE_BOUNDARIES | (1 << 3);

/// The bits for timestamps within existing blit encoders.
pub const ON_BLIT_ENCODER: u32 = STAGE_BOUNDARIES | (1 << 4);

/// The bits for timestamps within any render or compute pass.
pub const INSIDE_WGPU_PASSES: u32 = ON_RENDER_ENCODER | ON_COMPUTE_ENCODER;

/// All bits that have a meaning.
pub const ALL_TIMESTAMP_BITS: u32 = INSIDE_WGPU_PASSES | ON_BLIT_ENCODER;

/// Where timestamps can be taken. Similar to the counter sampling points of the device, but a bit
/// higher abstracted.
#[derive(Clone, Copy, Debug, PartialEq, Eq, Structural)]
pub struct TimestampQuerySupport {
    bits: u32,
}

impl TimestampQuerySupport {
    /// The flags as the bits of a number.
    pub closed spec fn view(self) -> u32 {
        self.bits
    }

    /// Whether all of `bits` are set.
    pub open spec fn has(self, bits: u32) -> bool {
        self@ & bits == bits
    }

    /// No support at all.
    pub fn empty() -> (flags: Self)
        ensures
            flags@ == 0,
    {
        TimestampQuerySupport { bits: 0 }
    }

    /// On creating encoders.
    pub fn stage_boundaries() -> (flags: Self)
        ensures
            flags@ == STAGE_BOUNDARIES,
            flags@ == 0b10,
    {
        proof {
            law_flags_have_their_own_bits();
        }
        TimestampQuerySupport { bits: STAGE_BOUNDARIES }
    }

    /// Within existing draw encoders.
    pub fn on_render_encoder() -> (flags: Self)
        ensures
            flags@ == ON_RENDER_ENCODER,
            flags@ == 0b110,
    {
        proof {
            law_flags_have_their_own_bits();
        }
        TimestampQuerySupport { bits: ON_RENDER_ENCODER }
    }

    /// Within existing dispatch encoders.
    pub fn on_compute_encoder() -> (flags: Self)
        ensures
            flags@ == ON_COMPUTE_ENCODER,
            flags@ == 0b1010,
    {
        proof {
            law_flags_have_their_own_bits();
        }
        TimestampQuerySupport { bits: ON_COMPUTE_ENCODER }
    }

    /// Within existing blit encoders.
    pub fn on_blit_encoder() -> (flags: Self)
        ensures
            flags@ == ON_BLIT_ENCODER,
            flags@ == 0b1_0010,
    {
        proof {
            law_flags_have_their_own_bits();
        }
        TimestampQuerySupport { bits: ON_BLIT_ENCODER }
    }

    /// Within any render or compute pass.
    pub fn inside_wgpu_passes() -> (flags: Self)
        ensures
            flags@ == INSIDE_WGPU_PASSES,
            flags@ == 0b1110,
    {
        proof {
            law_flags_have_their_own_bits();
        }
        TimestampQuerySupport { bits: INSIDE_WGPU_PASSES }
    }

    /// The flags as the bits of a number.
    pub fn bits(&self) -> (bits: u32)
        ensures
            bits == self@,
    {
        self.bits
    }

    /// The flags with exactly these bits, unless one of them has no meaning.
    pub fn from_bits(bits: u32) -> (flags: Option<Self>)
        ensures
            flags is Some <==> bits & ALL_TIMESTAMP_BITS == bits,
            flags is Some <==> bits & 0b1_1110 == bits,
            flags matches Some(flags) ==> flags@ == bits,
    {
        proof {
            law_flags_have_their_own_bits();
        }
        if bits & ALL_TIMESTAMP_BITS == bits {
            Some(TimestampQuerySupport { bits })
        } else {
            None
        }
    }

    /// Whether all flags of `other` are set.
    pub fn contains(&self, other: Self) -> (contained: bool)
        ensures
            contained == self.has(other@),
            contained == (self@ & other@ == other@),
    {
        self.bits & other.bits == other.bits
    }

    /// Sets all flags of `other`.
    pub fn insert(&mut self, other: Self)
        ensures
            final(self)@ == old(self)@ | other@,
    {
        self.bits = self.bits | other.bits;
    }
}

/// A number without any bit set from place `n` on has nothing left behind that place.
proof fn lemma_no_bits_left(bits: u32, n: u32)
    requires
        n <= 32,
        forall|i: u32| n <= i < 32 ==> #[trigger] (bits >> i) & 1 == 0,
    ensures
        bits >> n == 0,
    decreases 32 - n,
{
    if n == 32 {
        assert(bits >> 32u32 == 0) by (bit_vector);
    } else {
        let m = (n + 1) as u32;
        lemma_no_bits_left(bits, m);
        assert((bits >> n) & 1 == 0);
        assert(bits >> n == 0) by (bit_vector)
            requires
                n < 32,
                m == n + 1,
                bits >> m == 0,
                (bits >> n) & 1 == 0,
        ;
    }
}

/// Flags contain others exactly if each single bit that is set in the number of the others is set
/// in theirs, at each of the places of the number.
pub proof fn law_contains_is_bit_by_bit(
    flags: TimestampQuerySupport,
    other: TimestampQuerySupport,
)
    ensures
        flags.has(other@) <==> flags@ & other@ == other@,
        flags.has(other@) <==> forall|i: u32|
            i < 32 && #[trigger] (other@ >> i) & 1 == 1 ==> (flags@ >> i) & 1 == 1,
{
    let (f, o) = (flags@, other@);
    if f & o == o {
        assert forall|i: u32| i < 32 && #[trigger] (o >> i) & 1 == 1 implies (f >> i) & 1 == 1 by {
            assert((f >> i) & 1 == 1) by (bit_vector)
                requires
                    f & o == o,
                    (o >> i) & 1 == 1,
            ;
        }
    }
    if forall|i: u32| i < 32 && #[trigger] (o >> i) & 1 == 1 ==> (f >> i) & 1 == 1 {
        let missing = o & !f;
        assert forall|i: u32| 0 <= i < 32 implies #[trigger] (missing >> i) & 1 == 0 by {
            assert((o >> i) & 1 == 1 ==> (f >> i) & 1 == 1);
            assert((missing >> i) & 1 == 0) by (bit_vector)
                requires
                    missing == o & !f,
                    (o >> i) & 1 == 1 ==> (f >> i) & 1 == 1,
            ;
        }
        lemma_no_bits_left(missing, 0);
        assert(f & o == o) by (bit_vector)
            requires
                missing == o & !f,
                missing >> 0u32 == 0,
        ;
    }
}

/// What flags contain, all flags contain that contain them; and two flags that contain each other
/// are the same.
pub proof fn law_containment_is_an_order(
    a: TimestampQuerySupport,
    b: TimestampQuerySupport,
    c: TimestampQuerySupport,
)
    ensures
        a.has(a@),
        a.has(0),
        a.has(b@) && b.has(a@) ==> a@ == b@,
        a.has(b@) && b.has(c@) ==> a.has(c@),
{
    let (x, y, z) = (a@, b@, c@);
    assert(x & x == x && x & 0 == 0) by (bit_vector);
    assert(x & y == y && y & x == x ==> x == y) by (bit_vector);
    assert(x & y == y && y & z == z ==> x & z == z) by (bit_vector);
}

/// Each flag has a bit of its own beside that for the stage boundaries, and these are all the bits
/// that have a meaning.
pub proof fn law_flags_have_their_own_bits()
    ensures
        STAGE_BOUNDARIES == 0b10,
        ON_RENDER_ENCODER == 0b110,
        ON_COMPUTE_ENCODER == 0b1010,
        ON_BLIT_ENCODER == 0b1_0010,
        INSIDE_WGPU_PASSES == 0b1110,
        ALL_TIMESTAMP_BITS == 0b1_1110,
{
    assert(STAGE_BOUNDARIES == 0b10u32) by (bit_vector);
    assert(ON_RENDER_ENCODER == 0b110u32) by (bit_vector);
    assert(ON_COMPUTE_ENCODER == 0b1010u32) by (bit_vector);
    assert(ON_BLIT_ENCODER == 0b1_0010u32) by (bit_vector);
    assert(INSIDE_WGPU_PASSES == 0b1110u32) by (bit_vector);
    assert(ALL_TIMESTAMP_BITS == 0b1_1110u32) by (bit_vector);
}

/// Support for one thing brings no support for another: stage boundaries alone are support within
/// no kind of encoder, and support within one kind of encoder is none within the others.
pub proof fn law_flags_are_independent(flags: TimestampQuerySupport)
    ensures
        flags@ == 0 ==> !flags.has(STAGE_BOUNDARIES),
        flags@ & 0b100 == 0 ==> !flags.has(ON_RENDER_ENCODER) && !flags.has(INSIDE_WGPU_PASSES),
        flags@ & 0b1000 == 0 ==> !flags.has(ON_COMPUTE_ENCODER) && !flags.has(INSIDE_WGPU_PASSES),
        flags@ & 0b1_0000 == 0 ==> !flags.has(ON_BLIT_ENCODER),
{
    let f = flags@;
    assert(f == 0 ==> f & STAGE_BOUNDARIES != STAGE_BOUNDARIES) by (bit_vector);
    assert(f & 0b100 == 0 ==> f & ON_RENDER_ENCODER != ON_RENDER_ENCODER && f & INSIDE_WGPU_PASSES
        != INSIDE_WGPU_PASSES) by (bit_vector);
    assert(f & 0b1000 == 0 ==> f & ON_COMPUTE_ENCODER != ON_COMPUTE_ENCODER && f
        & INSIDE_WGPU_PASSES != INSIDE_WGPU_PASSES) by (bit_vector);
    assert(f & 0b1_0000 == 0 ==> f & ON_BLIT_ENCODER != ON_BLIT_ENCODER) by (bit_vector);
}

/// Support within any kind of encoder comes with support on creating encoders.
pub proof fn law_encoders_imply_boundaries(flags: TimestampQuerySupport)
    ensures
        flags.has(ON_RENDER_ENCODER) ==> flags.has(STAGE_BOUNDARIES),
        flags.has(ON_COMPUTE_ENCODER) ==> flags.has(STAGE_BOUNDARIES),
        flags.has(ON_BLIT_ENCODER) ==> flags.has(STAGE_BOUNDARIES),
{
    let bits = flags@;
    assert(bits & ON_RENDER_ENCODER == ON_RENDER_ENCODER ==> bits & STAGE_BOUNDARIES
        == STAGE_BOUNDARIES) by (bit_vector);
    assert(bits & ON_COMPUTE_ENCODER == ON_COMPUTE_ENCODER ==> bits & STAGE_BOUNDARIES
        == STAGE_BOUNDARIES) by (bit_vector);
    assert(bits & ON_BLIT_ENCODER == ON_BLIT_ENCODER ==> bits & STAGE_BOUNDARIES
        == STAGE_BOUNDARIES) by (bit_vector);
}

/// Support within any pass is support within render passes and within compute passes.
pub proof fn law_passes_are_render_and_compute(flags: TimestampQuerySupport)
    ensures
        flags.has(INSIDE_WGPU_PASSES) <==> flags.has(ON_RENDER_ENCODER) && flags.has(
            ON_COMPUTE_ENCODER,
        ),
{
    let bits = flags@;
    assert(bits & INSIDE_WGPU_PASSES == INSIDE_WGPU_PASSES <==> (bits & ON_RENDER_ENCODER
        == ON_RENDER_ENCODER && bits & ON_COMPUTE_ENCODER == ON_COMPUTE_ENCODER)) by (bit_vector);
}

/// After [`TimestampQuerySupport::insert`] the flags that were set and the inserted ones are set,
/// and no others.
pub proof fn law_insert_is_least(
    before: TimestampQuerySupport,
    other: TimestampQuerySupport,
    after: TimestampQuerySupport,
    flags: TimestampQuerySupport,
)
    requires
        after@ == before@ | other@,
    ensures
        after.has(before@),
        after.has(other@),
        flags.has(after@) <==> flags.has(before@) && flags.has(other@),
{
    let (b, o, f) = (before@, other@, flags@);
    assert((b | o) & b == b) by (bit_vector);
    assert((b | o) & o == o) by (bit_vector);
    assert(f & (b | o) == (b | o) <==> (f & b == b && f & o == o)) by (bit_vector);
}

/// A version of the shading language.
#[allow(non_camel_case_types)]
#[derive(Clone, Copy, Debug, PartialEq, Eq, Structural)]
pub enum LanguageVersion {
    V1_0,
    V1_1,
    V1_2,
    V2_0,
    V2_1,
    V2_2,
    V2_3,
    V2_4,
    V3_0,
    V3_1,
}

/// How far textures can be read and written in one shader.
#[derive(Clone, Copy, Debug, PartialEq, Eq, Structural)]
pub enum ReadWriteTextureTier {
    TierNone,
    Tier1,
    Tier2,
}

/// How far argument buffers are supported.
#[derive(Clone, Copy, Debug, PartialEq, Eq, Structural)]
pub enum ArgumentBuffersTier {
    Tier1,
    Tier2,
}

/// What a texture format can be used for, as the bits of a number.
#[derive(Clone, Copy, Debug, PartialEq, Eq, Structural)]
pub struct TextureFormatCapabilities {
    pub bits: u32,
}

/// What a device can do, as far as the backend has to know.
#[derive(Clone, Copy, Debug)]
pub struct PrivateCapabilities {
    pub family_check: bool,
    pub msl_version: LanguageVersion,
    pub fragment_rw_storage: bool,
    pub read_write_texture_tier: ReadWriteTextureTier,
    pub msaa_desktop: bool,
    pub msaa_apple3: bool,
    pub msaa_apple7: bool,
    pub resource_heaps: bool,
    pub argument_buffers: ArgumentBuffersTier,
    pub shared_textures: bool,
    pub mutable_comparison_samplers: bool,
    pub sampler_clamp_to_border: bool,
    pub indirect_draw_dispatch: bool,
    pub base_vertex_first_instance_drawing: bool,
    pub dual_source_blending: bool,
    pub low_power: bool,
    pub headless: bool,
    pub layered_rendering: bool,
    pub function_specialization: bool,
    pub depth_clip_mode: bool,
    pub texture_cube_array: bool,
    pub supports_float_filtering: bool,
    pub format_depth24_stencil8: bool,
    pub format_depth32_stencil8_filter: bool,
    pub format_depth32_stencil8_none: bool,
    pub format_min_srgb_channels: u8,
    pub format_b5: bool,
    pub format_bc: bool,
    pub format_eac_etc: bool,
    pub format_astc: bool,
    pub format_astc_hdr: bool,
    pub format_astc_3d: bool,
    pub format_any8_unorm_srgb_all: bool,
    pub format_any8_unorm_srgb_no_write: bool,
    pub format_any8_snorm_all: bool,
    pub format_r16_norm_all: bool,
    pub format_r32_all: bool,
    pub format_r32_no_write: bool,
    pub format_r32float_no_write_no_filter: bool,
    pub format_r32float_no_filter: bool,
    pub format_r32float_all: bool,
    pub format_rgba8_srgb_all: bool,
    pub format_rgba8_srgb_no_write: bool,
    pub format_rgb10a2_unorm_all: bool,
    pub format_rgb10a2_unorm_no_write: bool,
    pub format_rgb10a2_uint_write: bool,
    pub format_rg11b10_all: bool,
    pub format_rg11b10_no_write: bool,
    pub format_rgb9e5_all: bool,
    pub format_rgb9e5_no_write: bool,
    pub format_rgb9e5_filter_only: bool,
    pub format_rg32_color: bool,
    pub format_rg32_color_write: bool,
    pub format_rg32float_all: bool,
    pub format_rg32float_color_blend: bool,
    pub format_rg32float_no_filter: bool,
    pub format_rgba32int_color: bool,
    pub format_rgba32int_color_write: bool,
    pub format_rgba32float_color: bool,
    pub format_rgba32float_color_write: bool,
    pub format_rgba32float_all: bool,
    pub format_depth16unorm: bool,
    pub format_depth32float_filter: bool,
    pub format_depth32float_none: bool,
    pub format_bgr10a2_all: bool,
    pub format_bgr10a2_no_write: bool,
    pub max_buffers_per_stage: ResourceIndex,
    pub max_vertex_buffers: ResourceIndex,
    pub max_textures_per_stage: ResourceIndex,
    pub max_samplers_per_stage: ResourceIndex,
    pub max_binding_array_elements: ResourceIndex,
    pub max_sampler_binding_array_elements: ResourceIndex,
    pub buffer_alignment: u64,
    pub max_buffer_size: u64,
    pub max_texture_size: u64,
    pub max_texture_3d_size: u64,
    pub max_texture_layers: u64,
    pub max_fragment_input_components: u64,
    pub max_color_render_targets: u8,
    pub max_color_attachment_bytes_per_sample: u8,
    pub max_varying_components: u32,
    pub max_threads_per_group: u32,
    pub max_total_threadgroup_memory: u32,
    pub sample_count_mask: TextureFormatCapabilities,
    pub supports_debug_markers: bool,
    pub supports_binary_archives: bool,
    pub supports_capture_manager: bool,
    pub can_set_maximum_drawables_count: bool,
    pub can_set_display_sync: bool,
    pub can_set_next_drawable_timeout: bool,
    pub supports_arrays_of_textures: bool,
    pub supports_arrays_of_textures_write: bool,
    pub supports_mutability: bool,
    pub supports_depth_clip_control: bool,
    pub supports_preserve_invariance: bool,
    pub supports_shader_primitive_index: bool,
    pub has_unified_memory: Option<bool>,
    pub timestamp_query_support: TimestampQuerySupport,
    pub supports_simd_scoped_operations: bool,
    pub int64: bool,
    pub int64_atomics: bool,
    pub float_atomics: bool,
    pub supports_shared_event: bool,
}

/// What a device does not do right.
#[derive(Clone, Copy, Debug)]
pub struct PrivateDisabilities {
    /// Near depth is not respected properly on some Intel GPUs.
    pub broken_viewport_near_depth: bool,
    /// Multi-target clears don't appear to work properly on Intel GPUs.
    pub broken_layered_clear_image: bool,
}

/// How the backend is set up.
#[derive(Clone, Copy, Debug, PartialEq, Eq, Structural)]
pub struct Settings {
    pub retain_command_buffer_references: bool,
}

impl Default for Settings {
    /// Command buffers do not retain what they refer to.
    fn default() -> (settings: Self)
        ensures
            !settings.retain_command_buffer_references,
    {
        Settings { retain_command_buffer_references: false }
    }
}

} // verus!
