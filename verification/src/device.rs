//! What a device creates.

use vstd::prelude::*;
use vstd::slice::slice_to_vec;
use crate::descriptor::{
    idents_of, BindGroupLayoutDescriptor, PipelineLayoutDescriptor, RenderPipelineDescriptor,
};
use crate::error::MarshalError;
use crate::handle::{
    BindGroupLayout, BlendState, CommandBuffer, DepthStencilState, Device, Handle, Pending,
    PipelineLayout, Queue, RenderPipeline, ShaderModule, Texture,
};
use crate::marshal;
use crate::native::{CallModel, NativeCall};
use crate::types::{
    BlendStateDescriptor, CommandBufferDescriptor, DepthStencilStateDescriptor, TextureDescriptor,
};

verus! {

impl Device {
    /// Describes the creation of a shader module from the binary `spv`, handed over byte
    /// for byte.
    pub fn create_shader_module(&self, spv: &[u8]) -> (p: Pending<ShaderModule>)
        ensures
            p.call_spec()@ == (CallModel::DeviceCreateShaderModule {
                device: self.ident(),
                code: spv@,
            }),
    {
        Pending::new(
            NativeCall::DeviceCreateShaderModule { device: self.id(), code: slice_to_vec(spv) },
        )
    }

    /// Describes the request for this device's queue.
    pub fn get_queue(&self) -> (p: Pending<Queue>)
        ensures
            p.call_spec()@ == (CallModel::DeviceGetQueue { device: self.ident() }),
    {
        Pending::new(NativeCall::DeviceGetQueue { device: self.id() })
    }

    /// Describes the creation of a command buffer.
    pub fn create_command_buffer(&self, desc: &CommandBufferDescriptor) -> (p: Pending<
        CommandBuffer,
    >)
        ensures
            p.call_spec()@ == (CallModel::DeviceCreateCommandBuffer {
                device: self.ident(),
                desc: *desc,
            }),
    {
        Pending::new(NativeCall::DeviceCreateCommandBuffer { device: self.id(), desc: *desc })
    }

    /// Describes the creation of a bind group layout: its bindings, all of them, in the
    /// order of the descriptor.
    pub fn create_bind_group_layout(&self, desc: &BindGroupLayoutDescriptor<'_>) -> (p: Pending<
        BindGroupLayout,
    >)
        ensures
            p.call_spec()@ == (CallModel::DeviceCreateBindGroupLayout {
                device: self.ident(),
                bindings: desc.bindings@,
            }),
    {
        Pending::new(
            NativeCall::DeviceCreateBindGroupLayout {
                device: self.id(),
                bindings: slice_to_vec(desc.bindings),
            },
        )
    }

    /// Describes the creation of a pipeline layout: the identifiers of its bind group
    /// layouts, all of them, in the order of the descriptor.
    pub fn create_pipeline_layout(&self, desc: &PipelineLayoutDescriptor<'_>) -> (p: Pending<
        PipelineLayout,
    >)
        ensures
            p.call_spec()@ == (CallModel::DeviceCreatePipelineLayout {
                device: self.ident(),
                bind_group_layouts: idents_of(desc.bind_group_layouts@),
            }),
    {
        Pending::new(
            NativeCall::DeviceCreatePipelineLayout {
                device: self.id(),
                bind_group_layouts: marshal::ids_of(desc.bind_group_layouts),
            },
        )
    }

    /// Describes the creation of a blend state.
    pub fn create_blend_state(&self, desc: &BlendStateDescriptor) -> (p: Pending<BlendState>)
        ensures
            p.call_spec()@ == (CallModel::DeviceCreateBlendState {
                device: self.ident(),
                desc: *desc,
            }),
    {
        Pending::new(NativeCall::DeviceCreateBlendState { device: self.id(), desc: *desc })
    }

    /// Describes the creation of a depth-stencil state.
    pub fn create_depth_stencil_state(&self, desc: &DepthStencilStateDescriptor) -> (p: Pending<
        DepthStencilState,
    >)
        ensures
            p.call_spec()@ == (CallModel::DeviceCreateDepthStencilState {
                device: self.ident(),
                desc: *desc,
            }),
    {
        Pending::new(NativeCall::DeviceCreateDepthStencilState { device: self.id(), desc: *desc })
    }

    /// Describes the creation of a render pipeline from the flat form of `desc`.
    ///
    /// Fails where the descriptor's `marshal_error` says so, and only there: with more
    /// stages than the flat form holds, or with an entry point name that holds a zero
    /// byte.
    pub fn create_render_pipeline(&self, desc: &RenderPipelineDescriptor<'_>) -> (r: Result<
        Pending<RenderPipeline>,
        MarshalError,
    >)
        ensures
            match desc.marshal_error() {
                Some(e) => r == Err::<Pending<RenderPipeline>, MarshalError>(e),
                None => r is Ok && r->Ok_0.call_spec()@ == (CallModel::DeviceCreateRenderPipeline {
                    device: self.ident(),
                    desc: desc.flat(),
                }),
            },
    {
        match marshal::render_pipeline(desc) {
            Err(e) => Err(e),
            Ok(flat) => Ok(
                Pending::new(
                    NativeCall::DeviceCreateRenderPipeline { device: self.id(), desc: flat },
                ),
            ),
        }
    }

    /// Describes the creation of a texture.
    pub fn create_texture(&self, desc: &TextureDescriptor) -> (p: Pending<Texture>)
        ensures
            p.call_spec()@ == (CallModel::DeviceCreateTexture {
                device: self.ident(),
                desc: *desc,
            }),
    {
        Pending::new(NativeCall::DeviceCreateTexture { device: self.id(), desc: *desc })
    }
}

} // verus!
