//! The descriptors that callers build: borrowed slices, borrowed handles, plain fields.
//!
//! A descriptor owns nothing. Each has a mathematical reading, `flat`, of what the native
//! layer is to receive for it: identifiers for handles, sequences for slices.

use vstd::prelude::*;
use vstd::string::*;
use crate::bounded::MAX_STAGES;
use crate::error::MarshalError;
use crate::handle::{
    BindGroupLayout, BlendState, DepthStencilState, Handle, PipelineLayout, ShaderModule,
};
use crate::id::Id;
use crate::native::{PipelineStageModel, RenderPipelineModel};
use crate::types::{Attachment, BindGroupLayoutBinding, PrimitiveTopology, ShaderStage};

verus! {

/// The bindings of one bind group layout, in order.
pub struct BindGroupLayoutDescriptor<'a> {
    pub bindings: &'a [BindGroupLayoutBinding],
}

/// The bind group layouts of one pipeline layout, in order.
pub struct PipelineLayoutDescriptor<'a> {
    pub bind_group_layouts: &'a [&'a BindGroupLayout],
}

/// One programmable stage: the shader module, the stage it serves, and the name of its
/// entry function.
pub struct PipelineStageDescriptor<'a> {
    pub module: &'a ShaderModule,
    pub stage: ShaderStage,
    pub entry_point: &'a str,
}

/// The attachment formats that a render pipeline draws into.
pub struct AttachmentsState<'a> {
    pub color_attachments: &'a [Attachment],
    pub depth_stencil_attachment: Option<Attachment>,
}

/// Everything a render pipeline is made of.
pub struct RenderPipelineDescriptor<'a> {
    pub layout: &'a PipelineLayout,
    pub stages: &'a [PipelineStageDescriptor<'a>],
    pub primitive_topology: PrimitiveTopology,
    pub attachments_state: AttachmentsState<'a>,
    pub blend_states: &'a [&'a BlendState],
    pub depth_stencil_state: &'a DepthStencilState,
}

/// The bytes of `name` followed by one zero byte: `name` as a C string.
pub open spec fn c_string_of(name: &str) -> Seq<u8> {
    name.spec_bytes().push(0u8)
}

/// Whether `name` holds a zero byte, which no C string can hold inside.
pub open spec fn has_nul(name: &str) -> bool {
    name.spec_bytes().contains(0u8)
}

/// The identifiers of borrowed handles, in order.
pub open spec fn idents_of<H: Handle>(handles: Seq<&H>) -> Seq<Id> {
    Seq::new(handles.len(), |i: int| handles[i].ident())
}

/// The identifiers of handles, in order.
pub open spec fn idents<H: Handle>(handles: Seq<H>) -> Seq<Id> {
    Seq::new(handles.len(), |i: int| handles[i].ident())
}

impl<'a> PipelineStageDescriptor<'a> {
    /// The flat form of this stage.
    pub open spec fn flat(&self) -> PipelineStageModel {
        PipelineStageModel {
            module: self.module.ident(),
            stage: self.stage,
            entry_point: c_string_of(self.entry_point),
        }
    }
}

/// The index of the first stage from `from` on whose entry point holds a zero byte.
pub open spec fn first_nul_stage(stages: Seq<PipelineStageDescriptor<'_>>, from: int) -> Option<
    int,
>
    decreases stages.len() - from,
{
    if from < 0 || from >= stages.len() {
        None
    } else if has_nul(stages[from].entry_point) {
        Some(from)
    } else {
        first_nul_stage(stages, from + 1)
    }
}

/// The flat forms of `stages`, in the same order.
pub open spec fn flat_stages(stages: Seq<PipelineStageDescriptor<'_>>) -> Seq<PipelineStageModel> {
    Seq::new(stages.len(), |i: int| stages[i].flat())
}

/// Why `stages` cannot be flattened, if they cannot: there are more than [`MAX_STAGES`] of
/// them, or else one of them, the first being reported, names an entry point that holds
/// a zero byte.
pub open spec fn stages_error(stages: Seq<PipelineStageDescriptor<'_>>) -> Option<MarshalError> {
    if stages.len() > MAX_STAGES {
        Some(MarshalError::CapacityExceeded { limit: MAX_STAGES, given: stages.len() as usize })
    } else {
        match first_nul_stage(stages, 0) {
            Some(i) => Some(MarshalError::InteriorNul { stage: i as usize }),
            None => None,
        }
    }
}

impl<'a> RenderPipelineDescriptor<'a> {
    /// Why this descriptor cannot be flattened, if it cannot.
    pub open spec fn marshal_error(&self) -> Option<MarshalError> {
        stages_error(self.stages@)
    }

    /// The flat form of this descriptor: every handle by its identifier, every slice as
    /// the sequence of its flattened items in the same order, the optional attachment as
    /// it is.
    pub open spec fn flat(&self) -> RenderPipelineModel {
        RenderPipelineModel {
            layout: self.layout.ident(),
            stages: flat_stages(self.stages@),
            primitive_topology: self.primitive_topology,
            color_attachments: self.attachments_state.color_attachments@,
            depth_stencil_attachment: self.attachments_state.depth_stencil_attachment,
            blend_states: idents_of(self.blend_states@),
            depth_stencil_state: self.depth_stencil_state.ident(),
        }
    }
}

} // verus!
