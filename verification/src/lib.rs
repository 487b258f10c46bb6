//! Metal API internals: the rules by which a graphics backend drives Metal.
//!
//! Everything here works on plain values and on handles of any type. Reading from the device and
//! giving it commands is left to the code around the library.
//!
//! ## Pipeline Layout
//!
//! In Metal, push constants, vertex buffers, and resources in the bind groups are all placed
//! together in the native resource bindings: there are tables of textures, buffers, and samplers.
//!
//! We put push constants first (if any) in the table, followed by bind group 0 resources, followed
//! by other bind groups. The vertex buffers belong at the very end of the VS buffer table; binding
//! them there is left to the code around the library.

pub mod adapter;
pub mod capabilities;
pub mod fence;
pub mod instance;
pub mod pipeline;
pub mod queue;
pub mod resource;
pub mod stage;

pub use adapter::{
    Adapter, AdapterInfo, AdapterShared, Backend, DeviceType, ExposedAdapter, FoundDevice,
};
pub use capabilities::{
    ArgumentBuffersTier, LanguageVersion, PrivateCapabilities, PrivateDisabilities,
    ReadWriteTextureTier, Settings, TextureFormatCapabilities, TimestampQuerySupport,
};
pub use fence::{CommandBufferStatus, Fence, FenceValue};
pub use instance::{Api, Instance, InstanceError, TargetOs, WindowHandle};
pub use pipeline::{
    AttributeMapping, BindGroupLayoutInfo, PipelineCache, PipelineLayout, PipelineStageInfo,
    PushConstantsInfo, ResourceBinding, Slot, VertexBufferMapping, VertexBufferStepMode,
    MAX_BIND_GROUPS,
};
pub use queue::{PresentAction, Queue, SubmitAction, PRESENT_LABEL, SIGNAL_LABEL};
pub use resource::{
    AccelerationStructure, Buffer, BufferAddress, BufferBinding, BufferSize, CopyExtent,
    RenderStages, ResourceUsage, SurfaceTexture, Texture, UseResourceInfo,
};
pub use stage::{
    naga_stages, MultiStageData, MultiStageResourceCounters, ResourceData, ResourceIndex,
    ShaderStage,
};
