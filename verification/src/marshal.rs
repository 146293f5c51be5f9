//! Flattening: from borrowed descriptors to the owned records of the native interface.

use vstd::prelude::*;
use vstd::slice::slice_to_vec;
use vstd::string::*;
use crate::bounded::{
    color_list_new, color_list_push, stage_list_new, stage_list_push, StageList,
    MAX_COLOR_ATTACHMENTS, MAX_STAGES,
};
use crate::descriptor::{
    c_string_of, first_nul_stage, flat_stages, has_nul, idents, idents_of, stages_error,
    PipelineStageDescriptor, RenderPipelineDescriptor,
};
use crate::error::MarshalError;
use crate::handle::{Handle, TextureView};
use crate::id::Id;
use crate::native;
use crate::pass::{
    flat_color, flat_colors, flat_depth_stencil, RenderPassColorAttachmentDescriptor,
    RenderPassDepthStencilAttachmentDescriptor, RenderPassDescriptor,
};

verus! {

/// Writes `name` as a C string: its bytes and one closing zero byte.
///
/// Returns `None` exactly when `name` holds a zero byte itself.
pub fn c_string(name: &str) -> (r: Option<Vec<u8>>)
    ensures
        r is None <==> has_nul(name),
        r is Some ==> r->Some_0@ == c_string_of(name),
{
    let bytes = name.as_bytes();
    let mut out: Vec<u8> = Vec::new();
    let mut i: usize = 0;
    while i < bytes.len()
        invariant
            i <= bytes.len(),
            bytes@ == name.spec_bytes(),
            out@ == bytes@.take(i as int),
            forall|k: int| 0 <= k < i ==> bytes@[k] != 0u8,
        decreases bytes.len() - i,
    {
        let b = bytes[i];
        if b == 0 {
            assert(bytes@[i as int] == 0u8);
            return None;
        }
        out.push(b);
        assert(bytes@.take(i + 1) == bytes@.take(i as int).push(b));
        i += 1;
    }
    assert(bytes@.take(i as int) == bytes@);
    out.push(0);
    Some(out)
}

/// Reads the identifiers of borrowed handles, in order.
pub fn ids_of<H: Handle>(handles: &[&H]) -> (ids: Vec<Id>)
    ensures
        ids@ == idents_of(handles@),
{
    let mut ids: Vec<Id> = Vec::new();
    let mut i: usize = 0;
    while i < handles.len()
        invariant
            i <= handles.len(),
            ids@.len() == i,
            forall|k: int| 0 <= k < i ==> ids@[k] == handles@[k].ident(),
        decreases handles.len() - i,
    {
        ids.push(handles[i].id());
        i += 1;
    }
    proof {
        assert(ids@ =~= idents_of(handles@));
    }
    ids
}

/// Reads the identifiers of handles, in order.
pub fn ids<H: Handle>(handles: &[H]) -> (ids: Vec<Id>)
    ensures
        ids@ == idents(handles@),
{
    let mut ids: Vec<Id> = Vec::new();
    let mut i: usize = 0;
    while i < handles.len()
        invariant
            i <= handles.len(),
            ids@.len() == i,
            forall|k: int| 0 <= k < i ==> ids@[k] == handles@[k].ident(),
        decreases handles.len() - i,
    {
        ids.push(handles[i].id());
        i += 1;
    }
    proof {
        assert(ids@ =~= idents(handles@));
    }
    ids
}

/// From `from` on, the search for a zero byte gives what it gives one stage later, where
/// the stage at `from` has none.
proof fn lemma_first_nul_step(stages: Seq<PipelineStageDescriptor<'_>>, from: int)
    requires
        0 <= from < stages.len(),
        !has_nul(stages[from].entry_point),
    ensures
        first_nul_stage(stages, from) == first_nul_stage(stages, from + 1),
{
}

/// Flattens the stages of a pipeline into an inline list, in order.
///
/// Fails where [`stages_error`] says so, and only there.
pub fn stages(list: &[PipelineStageDescriptor<'_>]) -> (r: Result<StageList, MarshalError>)
    ensures
        match stages_error(list@) {
            Some(e) => r == Err::<StageList, MarshalError>(e),
            None => r is Ok && r->Ok_0@.map_values(|s: native::PipelineStageDescriptor| s@)
                == flat_stages(list@),
        },
{
    let n = list.len();
    if n > MAX_STAGES {
        return Err(MarshalError::CapacityExceeded { limit: MAX_STAGES, given: n });
    }
    let mut out = stage_list_new();
    let mut i: usize = 0;
    while i < n
        invariant
            n == list@.len(),
            i <= n <= MAX_STAGES,
            out@.len() == i,
            forall|k: int| 0 <= k < i ==> (#[trigger] out@[k])@ == list@[k].flat(),
            first_nul_stage(list@, 0) == first_nul_stage(list@, i as int),
        decreases n - i,
    {
        let stage = &list[i];
        match c_string(stage.entry_point) {
            None => {
                return Err(MarshalError::InteriorNul { stage: i });
            },
            Some(entry_point) => {
                let flat = native::PipelineStageDescriptor {
                    module: stage.module.id(),
                    stage: stage.stage,
                    entry_point,
                };
                proof {
                    lemma_first_nul_step(list@, i as int);
                }
                stage_list_push(&mut out, flat);
            },
        }
        i += 1;
    }
    proof {
        assert(out@.map_values(|s: native::PipelineStageDescriptor| s@) =~= flat_stages(
            list@,
        ));
    }
    Ok(out)
}

/// Flattens a render pipeline descriptor.
///
/// Fails where the descriptor's `marshal_error` says so, and only there; otherwise the
/// record holds exactly the descriptor's `flat` form.
pub fn render_pipeline(desc: &RenderPipelineDescriptor<'_>) -> (r: Result<
    native::RenderPipelineDescriptor,
    MarshalError,
>)
    ensures
        match desc.marshal_error() {
            Some(e) => r == Err::<native::RenderPipelineDescriptor, MarshalError>(e),
            None => r is Ok && r->Ok_0@ == desc.flat(),
        },
{
    match self::stages(desc.stages) {
        Err(e) => Err(e),
        Ok(list) => {
            let flat = native::RenderPipelineDescriptor {
                layout: desc.layout.id(),
                stages: list,
                primitive_topology: desc.primitive_topology,
                attachments_state: native::AttachmentsState {
                    color_attachments: slice_to_vec(desc.attachments_state.color_attachments),
                    depth_stencil_attachment: desc.attachments_state.depth_stencil_attachment,
                },
                blend_states: ids_of(desc.blend_states),
                depth_stencil_state: desc.depth_stencil_state.id(),
            };
            Ok(flat)
        },
    }
}

/// Flattens one colour attachment.
pub fn color_attachment(
    c: &RenderPassColorAttachmentDescriptor<&TextureView>,
) -> (flat: RenderPassColorAttachmentDescriptor<Id>)
    ensures
        flat == flat_color(*c),
{
    RenderPassColorAttachmentDescriptor {
        attachment: c.attachment.id(),
        load_op: c.load_op,
        store_op: c.store_op,
        clear_color: c.clear_color,
    }
}

/// Flattens a depth-stencil attachment.
pub fn depth_stencil_attachment(
    d: &RenderPassDepthStencilAttachmentDescriptor<&TextureView>,
) -> (flat: RenderPassDepthStencilAttachmentDescriptor<Id>)
    ensures
        flat == flat_depth_stencil(*d),
{
    RenderPassDepthStencilAttachmentDescriptor {
        attachment: d.attachment.id(),
        depth_load_op: d.depth_load_op,
        depth_store_op: d.depth_store_op,
        clear_depth: d.clear_depth,
        stencil_load_op: d.stencil_load_op,
        stencil_store_op: d.stencil_store_op,
        clear_stencil: d.clear_stencil,
    }
}

/// Flattens a render pass descriptor.
///
/// Fails where the descriptor's `marshal_error` says so, and only there; otherwise the
/// record holds exactly the descriptor's `flat` form.
pub fn render_pass(desc: &RenderPassDescriptor<'_, &TextureView>) -> (r: Result<
    native::RenderPassDescriptor,
    MarshalError,
>)
    ensures
        match desc.marshal_error() {
            Some(e) => r == Err::<native::RenderPassDescriptor, MarshalError>(e),
            None => r is Ok && r->Ok_0@ == desc.flat(),
        },
{
    let colors = desc.color_attachments;
    let n = colors.len();
    if n > MAX_COLOR_ATTACHMENTS {
        return Err(MarshalError::CapacityExceeded { limit: MAX_COLOR_ATTACHMENTS, given: n });
    }
    let mut out = color_list_new();
    let mut i: usize = 0;
    while i < n
        invariant
            n == colors@.len(),
            i <= n <= MAX_COLOR_ATTACHMENTS,
            out@.len() == i,
            forall|k: int| 0 <= k < i ==> #[trigger] out@[k] == flat_color(colors@[k]),
        decreases n - i,
    {
        color_list_push(&mut out, color_attachment(&colors[i]));
        i += 1;
    }
    proof {
        assert(out@ =~= flat_colors(colors@));
    }
    let depth_stencil = match &desc.depth_stencil_attachment {
        Some(d) => Some(depth_stencil_attachment(d)),
        None => None,
    };
    Ok(native::RenderPassDescriptor { color_attachments: out, depth_stencil_attachment: depth_stencil })
}

} // verus!
