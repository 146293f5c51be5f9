//! The flat records that cross the native boundary, and the calls that carry them.
//!
//! A flat record holds identifiers where the caller's descriptor borrows handles, owned
//! buffers where it borrows slices, and `None` where an optional part is absent.

use vstd::prelude::*;
use crate::bounded::{ColorAttachmentList, StageList};
use crate::id::Id;
use crate::pass::{RenderPassColorAttachmentDescriptor, RenderPassDepthStencilAttachmentDescriptor};
use crate::types::{
    AdapterDescriptor, Attachment, BindGroupLayoutBinding, BlendStateDescriptor,
    CommandBufferDescriptor, DepthStencilStateDescriptor, DeviceDescriptor, PrimitiveTopology,
    ShaderStage, TextureDescriptor, TextureViewDescriptor,
};

verus! {

/// One programmable stage of a pipeline, flattened.
///
/// `entry_point` is the name of the stage's entry function as a C string: its bytes
/// followed by a single zero byte.
#[derive(Clone, Debug, PartialEq, Eq)]
pub struct PipelineStageDescriptor {
    pub module: Id,
    pub stage: ShaderStage,
    pub entry_point: Vec<u8>,
}

/// What a flattened stage holds, as plain mathematical values.
pub struct PipelineStageModel {
    pub module: Id,
    pub stage: ShaderStage,
    pub entry_point: Seq<u8>,
}

impl View for PipelineStageDescriptor {
    type V = PipelineStageModel;

    open spec fn view(&self) -> PipelineStageModel {
        PipelineStageModel {
            module: self.module,
            stage: self.stage,
            entry_point: self.entry_point@,
        }
    }
}

/// The attachment formats of a render pipeline, flattened.
#[derive(Clone, Debug, PartialEq, Eq)]
pub struct AttachmentsState {
    pub color_attachments: Vec<Attachment>,
    pub depth_stencil_attachment: Option<Attachment>,
}

/// A render pipeline descriptor, flattened.
#[derive(Debug, PartialEq)]
pub struct RenderPipelineDescriptor {
    pub layout: Id,
    pub stages: StageList,
    pub primitive_topology: PrimitiveTopology,
    pub attachments_state: AttachmentsState,
    pub blend_states: Vec<Id>,
    pub depth_stencil_state: Id,
}

/// What a flattened render pipeline descriptor holds, as plain mathematical values.
pub struct RenderPipelineModel {
    pub layout: Id,
    pub stages: Seq<PipelineStageModel>,
    pub primitive_topology: PrimitiveTopology,
    pub color_attachments: Seq<Attachment>,
    pub depth_stencil_attachment: Option<Attachment>,
    pub blend_states: Seq<Id>,
    pub depth_stencil_state: Id,
}

impl View for RenderPipelineDescriptor {
    type V = RenderPipelineModel;

    open spec fn view(&self) -> RenderPipelineModel {
        RenderPipelineModel {
            layout: self.layout,
            stages: self.stages@.map_values(|s: PipelineStageDescriptor| s@),
            primitive_topology: self.primitive_topology,
            color_attachments: self.attachments_state.color_attachments@,
            depth_stencil_attachment: self.attachments_state.depth_stencil_attachment,
            blend_states: self.blend_states@,
            depth_stencil_state: self.depth_stencil_state,
        }
    }
}

/// A render pass descriptor, flattened.
#[derive(Debug, PartialEq)]
pub struct RenderPassDescriptor {
    pub color_attachments: ColorAttachmentList,
    pub depth_stencil_attachment: Option<RenderPassDepthStencilAttachmentDescriptor<Id>>,
}

/// What a flattened render pass descriptor holds, as plain mathematical values.
pub struct RenderPassModel {
    pub color_attachments: Seq<RenderPassColorAttachmentDescriptor<Id>>,
    pub depth_stencil_attachment: Option<RenderPassDepthStencilAttachmentDescriptor<Id>>,
}

impl View for RenderPassDescriptor {
    type V = RenderPassModel;

    open spec fn view(&self) -> RenderPassModel {
        RenderPassModel {
            color_attachments: self.color_attachments@,
            depth_stencil_attachment: self.depth_stencil_attachment,
        }
    }
}

/// One call of the native layer, with everything it is handed.
///
/// The variants are the entry points of the native interface. The first fourteen and the
/// two `Begin` variants create an object and return its identifier; the others return
/// nothing that this layer keeps.
#[allow(inconsistent_fields)]
#[derive(Debug, PartialEq)]
pub enum NativeCall {
    CreateInstance,
    InstanceGetAdapter { instance: Id, desc: AdapterDescriptor },
    AdapterCreateDevice { adapter: Id, desc: DeviceDescriptor },
    DeviceCreateShaderModule { device: Id, code: Vec<u8> },
    DeviceGetQueue { device: Id },
    DeviceCreateCommandBuffer { device: Id, desc: CommandBufferDescriptor },
    DeviceCreateBindGroupLayout { device: Id, bindings: Vec<BindGroupLayoutBinding> },
    DeviceCreatePipelineLayout { device: Id, bind_group_layouts: Vec<Id> },
    DeviceCreateBlendState { device: Id, desc: BlendStateDescriptor },
    DeviceCreateDepthStencilState { device: Id, desc: DepthStencilStateDescriptor },
    DeviceCreateRenderPipeline { device: Id, desc: RenderPipelineDescriptor },
    DeviceCreateTexture { device: Id, desc: TextureDescriptor },
    TextureCreateTextureView { texture: Id, desc: TextureViewDescriptor },
    TextureCreateDefaultTextureView { texture: Id },
    CommandBufferBeginRenderPass { command_buffer: Id, desc: RenderPassDescriptor },
    CommandBufferBeginComputePass { command_buffer: Id },
    RenderPassEndPass { pass: Id },
    ComputePassEndPass { pass: Id },
    ComputePassSetBindGroup { pass: Id, index: u32, bind_group: Id },
    ComputePassSetPipeline { pass: Id, pipeline: Id },
    ComputePassDispatch { pass: Id, x: u32, y: u32, z: u32 },
    QueueSubmit { queue: Id, command_buffers: Vec<Id> },
}

/// What a [`NativeCall`] says, as plain mathematical values: the entry point and each
/// argument, sequences in the order in which the native layer reads them.
#[allow(inconsistent_fields)]
pub enum CallModel {
    CreateInstance,
    InstanceGetAdapter { instance: Id, desc: AdapterDescriptor },
    AdapterCreateDevice { adapter: Id, desc: DeviceDescriptor },
    DeviceCreateShaderModule { device: Id, code: Seq<u8> },
    DeviceGetQueue { device: Id },
    DeviceCreateCommandBuffer { device: Id, desc: CommandBufferDescriptor },
    DeviceCreateBindGroupLayout { device: Id, bindings: Seq<BindGroupLayoutBinding> },
    DeviceCreatePipelineLayout { device: Id, bind_group_layouts: Seq<Id> },
    DeviceCreateBlendState { device: Id, desc: BlendStateDescriptor },
    DeviceCreateDepthStencilState { device: Id, desc: DepthStencilStateDescriptor },
    DeviceCreateRenderPipeline { device: Id, desc: RenderPipelineModel },
    DeviceCreateTexture { device: Id, desc: TextureDescriptor },
    TextureCreateTextureView { texture: Id, desc: TextureViewDescriptor },
    TextureCreateDefaultTextureView { texture: Id },
    CommandBufferBeginRenderPass { command_buffer: Id, desc: RenderPassModel },
    CommandBufferBeginComputePass { command_buffer: Id },
    RenderPassEndPass { pass: Id },
    ComputePassEndPass { pass: Id },
    ComputePassSetBindGroup { pass: Id, index: u32, bind_group: Id },
    ComputePassSetPipeline { pass: Id, pipeline: Id },
    ComputePassDispatch { pass: Id, x: u32, y: u32, z: u32 },
    QueueSubmit { queue: Id, command_buffers: Seq<Id> },
}

impl View for NativeCall {
    type V = CallModel;

    open spec fn view(&self) -> CallModel {
        match *self {
            NativeCall::CreateInstance => CallModel::CreateInstance,
            NativeCall::InstanceGetAdapter { instance, desc } => CallModel::InstanceGetAdapter {
                instance,
                desc,
            },
            NativeCall::AdapterCreateDevice { adapter, desc } => CallModel::AdapterCreateDevice {
                adapter,
                desc,
            },
            NativeCall::DeviceCreateShaderModule { device, code } => {
                CallModel::DeviceCreateShaderModule { device, code: code@ }
            },
            NativeCall::DeviceGetQueue { device } => CallModel::DeviceGetQueue { device },
            NativeCall::DeviceCreateCommandBuffer { device, desc } => {
                CallModel::DeviceCreateCommandBuffer { device, desc }
            },
            NativeCall::DeviceCreateBindGroupLayout { device, bindings } => {
                CallModel::DeviceCreateBindGroupLayout { device, bindings: bindings@ }
            },
            NativeCall::DeviceCreatePipelineLayout { device, bind_group_layouts } => {
                CallModel::DeviceCreatePipelineLayout {
                    device,
                    bind_group_layouts: bind_group_layouts@,
                }
            },
            NativeCall::DeviceCreateBlendState { device, desc } => {
                CallModel::DeviceCreateBlendState { device, desc }
            },
            NativeCall::DeviceCreateDepthStencilState { device, desc } => {
                CallModel::DeviceCreateDepthStencilState { device, desc }
            },
            NativeCall::DeviceCreateRenderPipeline { device, desc } => {
                CallModel::DeviceCreateRenderPipeline { device, desc: desc@ }
            },
            NativeCall::DeviceCreateTexture { device, desc } => CallModel::DeviceCreateTexture {
                device,
                desc,
            },
            NativeCall::TextureCreateTextureView { texture, desc } => {
                CallModel::TextureCreateTextureView { texture, desc }
            },
            NativeCall::TextureCreateDefaultTextureView { texture } => {
                CallModel::TextureCreateDefaultTextureView { texture }
            },
            NativeCall::CommandBufferBeginRenderPass { command_buffer, desc } => {
                CallModel::CommandBufferBeginRenderPass { command_buffer, desc: desc@ }
            },
            NativeCall::CommandBufferBeginComputePass { command_buffer } => {
                CallModel::CommandBufferBeginComputePass { command_buffer }
            },
            NativeCall::RenderPassEndPass { pass } => CallModel::RenderPassEndPass { pass },
            NativeCall::ComputePassEndPass { pass } => CallModel::ComputePassEndPass { pass },
            NativeCall::ComputePassSetBindGroup { pass, index, bind_group } => {
                CallModel::ComputePassSetBindGroup { pass, index, bind_group }
            },
            NativeCall::ComputePassSetPipeline { pass, pipeline } => {
                CallModel::ComputePassSetPipeline { pass, pipeline }
            },
            NativeCall::ComputePassDispatch { pass, x, y, z } => CallModel::ComputePassDispatch {
                pass,
                x,
                y,
                z,
            },
            NativeCall::QueueSubmit { queue, command_buffers } => CallModel::QueueSubmit {
                queue,
                command_buffers: command_buffers@,
            },
        }
    }
}

} // verus!
