//! Command buffers and the passes recorded into them.
//!
//! A command buffer is idle, or it is inside a render pass, or inside a compute pass. The
//! three states are three types. Beginning a pass takes the command buffer and ending the
//! pass gives it back, so a command buffer with a pass open cannot be reached: not
//! to begin a second pass, not to be submitted. Ending is the only way out of a pass.

use vstd::prelude::*;
use crate::error::MarshalError;
use crate::handle::{BindGroup, CommandBuffer, ComputePipeline, Handle, TextureView};
use crate::id::Id;
use crate::marshal;
use crate::native::{CallModel, NativeCall, RenderPassModel};
use crate::pass::RenderPassDescriptor;
use crate::state::{step, Op, PassState, Recording};

verus! {

/// A render pass that has been described and whose identifier has not come back yet. It
/// holds the command buffer.
pub struct PendingRenderPass {
    call: NativeCall,
    parent: CommandBuffer,
}

/// A compute pass that has been described and whose identifier has not come back yet. It
/// holds the command buffer.
pub struct PendingComputePass {
    call: NativeCall,
    parent: CommandBuffer,
}

/// An open render pass. It holds the command buffer it records into.
#[derive(Debug, PartialEq, Eq)]
pub struct RenderPass {
    id: Id,
    parent: CommandBuffer,
}

/// An open compute pass. It holds the command buffer it records into.
#[derive(Debug, PartialEq, Eq)]
pub struct ComputePass {
    id: Id,
    parent: CommandBuffer,
}

impl CommandBuffer {
    /// The state of this command buffer: idle, as every value of this type is.
    pub open spec fn model(&self) -> Recording {
        Recording { command_buffer: self.ident(), state: PassState::Idle }
    }

    /// Describes the beginning of a render pass on this command buffer, from the flat
    /// form of `desc`, and takes the command buffer along.
    ///
    /// Fails where the descriptor's `marshal_error` says so, and only there; the command
    /// buffer then comes back with the error, still idle.
    pub fn begin_render_pass(self, desc: &RenderPassDescriptor<'_, &TextureView>) -> (r: Result<
        PendingRenderPass,
        (CommandBuffer, MarshalError),
    >)
        ensures
            match desc.marshal_error() {
                Some(e) => r == Err::<PendingRenderPass, (CommandBuffer, MarshalError)>((self, e)),
                None => r is Ok && r->Ok_0.parent() == self && r->Ok_0.desc() == desc.flat()
                    && r->Ok_0.call_spec()@ == (CallModel::CommandBufferBeginRenderPass {
                    command_buffer: self.ident(),
                    desc: desc.flat(),
                }),
            },
    {
        match marshal::render_pass(desc) {
            Err(e) => Err((self, e)),
            Ok(flat) => {
                let call = NativeCall::CommandBufferBeginRenderPass {
                    command_buffer: self.id(),
                    desc: flat,
                };
                Ok(PendingRenderPass { call, parent: self })
            },
        }
    }

    /// Describes the beginning of a compute pass on this command buffer, and takes the
    /// command buffer along.
    pub fn begin_compute_pass(self) -> (p: PendingComputePass)
        ensures
            p.parent() == self,
            p.call_spec()@ == (CallModel::CommandBufferBeginComputePass {
                command_buffer: self.ident(),
            }),
    {
        let call = NativeCall::CommandBufferBeginComputePass { command_buffer: self.id() };
        PendingComputePass { call, parent: self }
    }
}

impl PendingRenderPass {
    #[verifier::type_invariant]
    spec fn well_formed(self) -> bool {
        self.call@ == (CallModel::CommandBufferBeginRenderPass {
            command_buffer: self.parent.ident(),
            desc: self.desc(),
        })
    }

    /// The native call that begins the pass.
    pub closed spec fn call_spec(&self) -> NativeCall {
        self.call
    }

    /// The flat descriptor that the pass begins with.
    pub closed spec fn desc(&self) -> RenderPassModel {
        self.call@->CommandBufferBeginRenderPass_desc
    }

    /// The command buffer that the pass will record into.
    pub closed spec fn parent(&self) -> CommandBuffer {
        self.parent
    }

    /// The native call to perform.
    pub fn call(&self) -> (call: &NativeCall)
        ensures
            *call == self.call_spec(),
    {
        &self.call
    }

    /// Wraps the identifier that the native call returned: the pass is open.
    ///
    /// Together with the call described, this is the step that begins a render pass on
    /// the idle command buffer.
    pub fn finish(self, id: Id) -> (pass: RenderPass)
        ensures
            pass.ident() == id,
            pass.parent() == self.parent(),
            step(self.parent().model(), Op::BeginRenderPass { desc: self.desc(), pass: id })
                == Some((pass.model(), self.call_spec()@)),
    {
        proof {
            use_type_invariant(&self);
        }
        RenderPass { id, parent: self.parent }
    }
}

impl PendingComputePass {
    #[verifier::type_invariant]
    spec fn well_formed(self) -> bool {
        self.call@ == (CallModel::CommandBufferBeginComputePass {
            command_buffer: self.parent.ident(),
        })
    }

    /// The native call that begins the pass.
    pub closed spec fn call_spec(&self) -> NativeCall {
        self.call
    }

    /// The command buffer that the pass will record into.
    pub closed spec fn parent(&self) -> CommandBuffer {
        self.parent
    }

    /// The native call to perform.
    pub fn call(&self) -> (call: &NativeCall)
        ensures
            *call == self.call_spec(),
    {
        &self.call
    }

    /// Wraps the identifier that the native call returned: the pass is open.
    ///
    /// Together with the call described, this is the step that begins a compute pass on
    /// the idle command buffer.
    pub fn finish(self, id: Id) -> (pass: ComputePass)
        ensures
            pass.ident() == id,
            pass.parent() == self.parent(),
            step(self.parent().model(), Op::BeginComputePass { pass: id }) == Some(
                (pass.model(), self.call_spec()@),
            ),
    {
        proof {
            use_type_invariant(&self);
        }
        ComputePass { id, parent: self.parent }
    }
}

impl RenderPass {
    /// The identifier of the pass.
    pub closed spec fn ident(&self) -> Id {
        self.id
    }

    /// The command buffer that the pass records into.
    pub closed spec fn parent(&self) -> CommandBuffer {
        self.parent
    }

    /// The state of the command buffer: this render pass is open on it.
    pub open spec fn model(&self) -> Recording {
        Recording {
            command_buffer: self.parent().ident(),
            state: PassState::RenderPassOpen { pass: self.ident() },
        }
    }

    /// Ends the pass: describes the native call that releases it, and gives back the
    /// command buffer that the pass was begun on.
    pub fn end_pass(self) -> (r: (CommandBuffer, NativeCall))
        ensures
            r.0 == self.parent(),
            r.1@ == (CallModel::RenderPassEndPass { pass: self.ident() }),
            step(self.model(), Op::EndPass) == Some((r.0.model(), r.1@)),
    {
        (self.parent, NativeCall::RenderPassEndPass { pass: self.id })
    }
}

impl ComputePass {
    /// The identifier of the pass.
    pub closed spec fn ident(&self) -> Id {
        self.id
    }

    /// The command buffer that the pass records into.
    pub closed spec fn parent(&self) -> CommandBuffer {
        self.parent
    }

    /// The state of the command buffer: this compute pass is open on it.
    pub open spec fn model(&self) -> Recording {
        Recording {
            command_buffer: self.parent().ident(),
            state: PassState::ComputePassOpen { pass: self.ident() },
        }
    }

    /// Ends the pass: describes the native call that releases it, and gives back the
    /// command buffer that the pass was begun on.
    pub fn end_pass(self) -> (r: (CommandBuffer, NativeCall))
        ensures
            r.0 == self.parent(),
            r.1@ == (CallModel::ComputePassEndPass { pass: self.ident() }),
            step(self.model(), Op::EndPass) == Some((r.0.model(), r.1@)),
    {
        (self.parent, NativeCall::ComputePassEndPass { pass: self.id })
    }

    /// Describes the binding of `bind_group` at group number `index`. The pass stays as
    /// it is.
    pub fn set_bind_group(&mut self, index: u32, bind_group: &BindGroup) -> (call: NativeCall)
        ensures
            *final(self) == *old(self),
            call@ == (CallModel::ComputePassSetBindGroup {
                pass: old(self).ident(),
                index,
                bind_group: bind_group.ident(),
            }),
            step(old(self).model(), Op::SetBindGroup { index, bind_group: bind_group.ident() })
                == Some((final(self).model(), call@)),
    {
        NativeCall::ComputePassSetBindGroup { pass: self.id, index, bind_group: bind_group.id() }
    }

    /// Describes the binding of `pipeline`. The pass stays as it is.
    pub fn set_pipeline(&mut self, pipeline: &ComputePipeline) -> (call: NativeCall)
        ensures
            *final(self) == *old(self),
            call@ == (CallModel::ComputePassSetPipeline {
                pass: old(self).ident(),
                pipeline: pipeline.ident(),
            }),
            step(old(self).model(), Op::SetPipeline { pipeline: pipeline.ident() }) == Some(
                (final(self).model(), call@),
            ),
    {
        NativeCall::ComputePassSetPipeline { pass: self.id, pipeline: pipeline.id() }
    }

    /// Describes a dispatch of `x` by `y` by `z` work groups. The pass stays as it is.
    pub fn dispatch(&mut self, x: u32, y: u32, z: u32) -> (call: NativeCall)
        ensures
            *final(self) == *old(self),
            call@ == (CallModel::ComputePassDispatch { pass: old(self).ident(), x, y, z }),
            step(old(self).model(), Op::Dispatch { x, y, z }) == Some(
                (final(self).model(), call@),
            ),
    {
        NativeCall::ComputePassDispatch { pass: self.id, x, y, z }
    }
}

} // verus!
