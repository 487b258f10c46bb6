//! Buffers, textures, and how bind groups refer to them.

use vstd::prelude::*;

verus! {

/// An offset into a buffer or a length of a part of it, in bytes.
pub type BufferAddress = u64;

/// A length in bytes that is not zero.
#[derive(Clone, Copy, Debug, PartialEq, Eq, Structural)]
pub struct BufferSize {
    bytes: u64,
}

impl BufferSize {
    #[verifier::type_invariant]
    spec fn is_positive(self) -> bool {
        self.bytes > 0
    }

    /// The length in bytes.
    pub closed spec fn view(self) -> u64 {
        self.bytes
    }

    /// A size of `bytes`, unless that is zero.
    pub fn new(bytes: u64) -> (size: Option<BufferSize>)
        ensures
            size is None <==> bytes == 0,
            size matches Some(size) ==> size@ == bytes,
    {
        if bytes == 0 {
            None
        } else {
            Some(BufferSize { bytes })
        }
    }

    /// The length in bytes.
    pub fn get(self) -> (bytes: u64)
        ensures
            bytes == self@,
            bytes > 0,
    {
        proof {
            use_type_invariant(&self);
        }
        self.bytes
    }
}

/// A buffer behind the handle `raw`.
#[derive(Debug)]
pub struct Buffer<R> {
    pub raw: R,
    pub size: BufferAddress,
}

/// The part of a buffer that a binding makes visible.
#[derive(Debug)]
pub struct BufferBinding<'a, R> {
    pub buffer: &'a Buffer<R>,
    /// Where the part begins.
    pub offset: BufferAddress,
    /// How long it is; without a size it goes on to the end of the buffer.
    pub size: Option<BufferSize>,
}

impl<'a, R> BufferBinding<'a, R> {
    /// How long the part is.
    pub open spec fn resolved_size(self) -> int {
        match self.size {
            Some(size) => size@ as int,
            None => self.buffer.size - self.offset,
        }
    }

    /// How long the part is. Without a size, the offset must not be beyond the end of the buffer.
    pub fn resolve_size(&self) -> (size: BufferAddress)
        requires
            self.size is None ==> self.offset <= self.buffer.size,
        ensures
            size == self.resolved_size(),
            self.size matches Some(own) ==> size == own@,
            self.size is None ==> self.offset + size == self.buffer.size,
            self.size is Some ==> size > 0,
    {
        match self.size {
            Some(size) => size.get(),
            None => self.buffer.size - self.offset,
        }
    }
}

/// The extent of a texture in a copy.
#[derive(Clone, Copy, Debug, PartialEq, Eq, Structural)]
pub struct CopyExtent {
    pub width: u32,
    pub height: u32,
    pub depth: u32,
}

/// A texture behind the handle `raw`, with texels of format `F` and of native type `K`.
#[derive(Debug)]
pub struct Texture<R, F, K> {
    pub raw: R,
    pub format: F,
    pub raw_type: K,
    pub array_layers: u32,
    pub mip_levels: u32,
    pub copy_size: CopyExtent,
}

impl<R, F, K> Texture<R, F, K> {
    /// The native texture. It must not be destroyed through the handle.
    pub fn raw_handle(&self) -> (raw: &R)
        ensures
            *raw == self.raw,
    {
        &self.raw
    }
}

/// A texture of a surface, with the drawable that shows it.
#[derive(Debug)]
pub struct SurfaceTexture<R, F, K, D> {
    pub texture: Texture<R, F, K>,
    pub drawable: D,
    pub present_with_transaction: bool,
}

impl<R, F, K, D> SurfaceTexture<R, F, K, D> {
    /// The texture without its drawable.
    pub fn borrow(&self) -> (texture: &Texture<R, F, K>)
        ensures
            *texture == self.texture,
    {
        &self.texture
    }
}

impl<R, F, K, D> core::borrow::Borrow<Texture<R, F, K>> for SurfaceTexture<R, F, K, D> {
    /// The texture without its drawable.
    fn borrow(&self) -> (texture: &Texture<R, F, K>)
        ensures
            *texture == self.texture,
    {
        &self.texture
    }
}

/// How a shader uses a resource, as the bits of a number.
#[derive(Clone, Copy, Debug, PartialEq, Eq, Structural)]
pub struct ResourceUsage {
    pub bits: u64,
}

impl ResourceUsage {
    /// No use.
    pub fn empty() -> (usage: Self)
        ensures
            usage.bits == 0,
    {
        ResourceUsage { bits: 0 }
    }
}

/// The render stages that use a resource, as the bits of a number.
#[derive(Clone, Copy, Debug, PartialEq, Eq, Structural)]
pub struct RenderStages {
    pub bits: u64,
}

impl RenderStages {
    /// No stage.
    pub fn empty() -> (stages: Self)
        ensures
            stages.bits == 0,
    {
        RenderStages { bits: 0 }
    }
}

/// What a bind group does with a resource that it makes resident.
#[derive(Debug)]
pub struct UseResourceInfo {
    pub uses: ResourceUsage,
    pub stages: RenderStages,
    pub visible_in_compute: bool,
}

impl Default for UseResourceInfo {
    /// The resource is not used anywhere.
    fn default() -> (info: Self)
        ensures
            info.uses.bits == 0,
            info.stages.bits == 0,
            !info.visible_in_compute,
    {
        UseResourceInfo {
            uses: ResourceUsage::empty(),
            stages: RenderStages::empty(),
            visible_in_compute: false,
        }
    }
}

/// A structure for ray tracing. There is none yet.
#[derive(Debug)]
pub struct AccelerationStructure;

/// A binding with a size has that size, whatever its offset and its buffer are.
pub proof fn law_sized_binding_has_its_size<R>(binding: BufferBinding<'_, R>, size: BufferSize)
    requires
        binding.size == Some(size),
    ensures
        binding.resolved_size() == size@,
{
}

/// Bindings with the same size are equally long, in whatever buffer and wherever they begin.
pub proof fn law_size_alone_decides<R, S>(a: BufferBinding<'_, R>, b: BufferBinding<'_, S>)
    requires
        a.size is Some,
        a.size == b.size,
    ensures
        a.resolved_size() == b.resolved_size(),
{
}

/// A binding without a size ends where its buffer does.
pub proof fn law_unsized_binding_reaches_end<R>(binding: BufferBinding<'_, R>)
    requires
        binding.size is None,
    ensures
        binding.offset + binding.resolved_size() == binding.buffer.size,
{
}

} // verus!
