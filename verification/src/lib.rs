//! A typed front end to an identifier-based GPU interface.
//!
//! The native layer names its objects by opaque identifiers and reads flat records. This
//! crate gives each kind of object an owning handle, flattens the descriptors that callers
//! build, and lets passes be recorded only in the order the native layer accepts.
//!
//! The crate itself calls nothing. Every operation describes exactly one call of the
//! native layer as a [`NativeCall`] of plain values. The program around the crate performs
//! the call and, where the call creates an object, hands the identifier that came back to
//! the pending handle.

pub mod bounded;
pub mod command;
pub mod descriptor;
pub mod device;
pub mod error;
pub mod handle;
pub mod id;
pub mod instance;
pub mod laws;
pub mod marshal;
pub mod native;
pub mod pass;
pub mod queue;
pub mod state;
pub mod texture;
pub mod types;

pub use crate::bounded::{ColorAttachmentList, StageList, MAX_COLOR_ATTACHMENTS, MAX_STAGES};
pub use crate::command::{ComputePass, PendingComputePass, PendingRenderPass, RenderPass};
pub use crate::descriptor::{
    AttachmentsState, BindGroupLayoutDescriptor, PipelineLayoutDescriptor,
    PipelineStageDescriptor, RenderPipelineDescriptor,
};
pub use crate::error::MarshalError;
pub use crate::handle::{
    Adapter, BindGroup, BindGroupLayout, BlendState, CommandBuffer, ComputePipeline,
    DepthStencilState, Device, Handle, Instance, Pending, PipelineLayout, Queue, RenderPipeline,
    ShaderModule, Texture, TextureView,
};
pub use crate::id::Id;
pub use crate::native::NativeCall;
pub use crate::pass::{
    RenderPassColorAttachmentDescriptor, RenderPassDepthStencilAttachmentDescriptor,
    RenderPassDescriptor,
};
pub use crate::types::{
    AdapterDescriptor, Attachment, BindGroupLayoutBinding, BindingType, BlendDescriptor,
    BlendFactor, BlendOperation, BlendStateDescriptor, Color, ColorWriteFlags,
    CommandBufferDescriptor, CompareFunction, DepthStencilStateDescriptor, DeviceDescriptor,
    Extensions, Extent3d, LoadOp, Origin3d, PowerPreference, PrimitiveTopology, ShaderStage,
    ShaderStageFlags, StencilOperation, StencilStateFaceDescriptor, StoreOp, TextureAspectFlags,
    TextureDescriptor, TextureDimension, TextureFormat, TextureUsageFlags, TextureViewDescriptor,
    TextureViewDimension,
};
