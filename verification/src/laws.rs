//! What holds of flattening and of the handle types, for every input.

use vstd::prelude::*;
use vstd::string::*;
use crate::command::{ComputePass, RenderPass};
use crate::descriptor::{
    c_string_of, flat_stages, has_nul, idents, idents_of, PipelineStageDescriptor,
    RenderPipelineDescriptor,
};
use crate::handle::{CommandBuffer, Handle, TextureView};
use crate::native;
use crate::pass::{
    flat_color, flat_colors, flat_depth_stencil, RenderPassColorAttachmentDescriptor,
    RenderPassDescriptor,
};
use crate::state::submittable;

verus! {

/// A C string is the name's bytes, in order, closed by one zero byte; where the name
/// holds no zero byte, the closing byte is the only one.
pub proof fn law_c_string_well_formed(name: &str)
    ensures
        c_string_of(name).len() == name.spec_bytes().len() + 1,
        c_string_of(name).last() == 0u8,
        c_string_of(name).drop_last() == name.spec_bytes(),
        !has_nul(name) ==> forall|i: int|
            0 <= i < c_string_of(name).len() - 1 ==> c_string_of(name)[i] != 0u8,
{
    let bytes = name.spec_bytes();
    assert(c_string_of(name).drop_last() =~= bytes);
    if !has_nul(name) {
        assert forall|i: int| 0 <= i < c_string_of(name).len() - 1 implies c_string_of(name)[i]
            != 0u8 by {
            assert(c_string_of(name)[i] == bytes[i]);
            assert(bytes.contains(bytes[i]));
        }
    }
}

/// Identifiers are read in order: as many as there are handles, the i-th from the i-th
/// handle.
pub proof fn law_idents_in_order<H: Handle>(handles: Seq<H>)
    ensures
        idents(handles).len() == handles.len(),
        forall|i: int| 0 <= i < handles.len() ==> idents(handles)[i] == handles[i].ident(),
{
}

/// Identifiers of borrowed handles are read in order: as many as there are handles, the
/// i-th from the i-th handle.
pub proof fn law_idents_of_in_order<H: Handle>(handles: Seq<&H>)
    ensures
        idents_of(handles).len() == handles.len(),
        forall|i: int| 0 <= i < handles.len() ==> idents_of(handles)[i] == handles[i].ident(),
{
}

/// Stages flatten in order: as many records as there are stages, the i-th holding the
/// i-th stage's module identifier, its stage, and its entry point as a C string.
pub proof fn law_stages_flatten_in_order(stages: Seq<PipelineStageDescriptor<'_>>)
    ensures
        flat_stages(stages).len() == stages.len(),
        forall|i: int|
            0 <= i < stages.len() ==> {
                &&& (#[trigger] flat_stages(stages)[i]).module == stages[i].module.ident()
                &&& flat_stages(stages)[i].stage == stages[i].stage
                &&& flat_stages(stages)[i].entry_point == c_string_of(stages[i].entry_point)
            },
{
}

/// Colour attachments flatten in order: as many records as there are attachments, the
/// i-th holding the i-th attachment's view identifier and its operations and clear
/// colour unchanged.
pub proof fn law_colors_flatten_in_order(
    colors: Seq<RenderPassColorAttachmentDescriptor<&TextureView>>,
)
    ensures
        flat_colors(colors).len() == colors.len(),
        forall|i: int|
            0 <= i < colors.len() ==> {
                &&& (#[trigger] flat_colors(colors)[i]).attachment == colors[i].attachment.ident()
                &&& flat_colors(colors)[i].load_op == colors[i].load_op
                &&& flat_colors(colors)[i].store_op == colors[i].store_op
                &&& flat_colors(colors)[i].clear_color == colors[i].clear_color
            },
{
}

/// A flattened render pipeline descriptor holds one record for each item of the
/// descriptor it was made from, in the descriptor's order: in its inline stage list, in
/// its colour attachment buffer and in its blend state buffer.
pub proof fn law_render_pipeline_records(
    flat: native::RenderPipelineDescriptor,
    desc: RenderPipelineDescriptor<'_>,
)
    requires
        flat@ == desc.flat(),
    ensures
        flat.stages@.len() == desc.stages@.len(),
        forall|i: int|
            0 <= i < desc.stages@.len() ==> (#[trigger] flat.stages@[i])@ == desc.stages@[i].flat(),
        flat.attachments_state.color_attachments@ == desc.attachments_state.color_attachments@,
        flat.blend_states@.len() == desc.blend_states@.len(),
        forall|i: int|
            0 <= i < desc.blend_states@.len() ==> #[trigger] flat.blend_states@[i]
                == desc.blend_states@[i].ident(),
        flat.layout == desc.layout.ident(),
        flat.depth_stencil_state == desc.depth_stencil_state.ident(),
{
    let mapped = flat.stages@.map_values(|s: native::PipelineStageDescriptor| s@);
    assert(mapped == flat_stages(desc.stages@));
    assert(mapped.len() == flat.stages@.len());
    assert forall|i: int| 0 <= i < desc.stages@.len() implies (#[trigger] flat.stages@[i])@
        == desc.stages@[i].flat() by {
        assert(mapped[i] == flat.stages@[i]@);
    }
}

/// A flattened render pass descriptor holds one record for each colour attachment of the
/// descriptor it was made from, in the descriptor's order.
pub proof fn law_render_pass_records(
    flat: native::RenderPassDescriptor,
    desc: RenderPassDescriptor<'_, &TextureView>,
)
    requires
        flat@ == desc.flat(),
    ensures
        flat.color_attachments@.len() == desc.color_attachments@.len(),
        forall|i: int|
            0 <= i < desc.color_attachments@.len() ==> #[trigger] flat.color_attachments@[i]
                == flat_color(desc.color_attachments@[i]),
{
}

/// The optional attachment of a render pipeline is absent in the flat form exactly when
/// it is absent in the descriptor, and the same attachment when present.
pub proof fn law_pipeline_optional_attachment(
    flat: native::RenderPipelineDescriptor,
    desc: RenderPipelineDescriptor<'_>,
)
    requires
        flat@ == desc.flat(),
    ensures
        flat.attachments_state.depth_stencil_attachment is None
            <==> desc.attachments_state.depth_stencil_attachment is None,
        flat.attachments_state.depth_stencil_attachment
            == desc.attachments_state.depth_stencil_attachment,
{
}

/// The optional attachment of a render pass is absent in the flat form exactly when it
/// is absent in the descriptor; when present, the flat record holds the identifier of
/// the attachment's view and the other fields unchanged.
pub proof fn law_pass_optional_attachment(
    flat: native::RenderPassDescriptor,
    desc: RenderPassDescriptor<'_, &TextureView>,
)
    requires
        flat@ == desc.flat(),
    ensures
        flat.depth_stencil_attachment is None <==> desc.depth_stencil_attachment is None,
        desc.depth_stencil_attachment is Some ==> flat.depth_stencil_attachment == Some(
            flat_depth_stencil(desc.depth_stencil_attachment->Some_0),
        ),
{
}

/// A command buffer is idle, so it can be submitted.
pub proof fn law_command_buffer_is_submittable(command_buffer: CommandBuffer)
    ensures
        submittable(command_buffer.model()),
{
}

/// While a pass is open, the command buffer under it cannot be submitted.
pub proof fn law_open_pass_is_not_submittable(render: RenderPass, compute: ComputePass)
    ensures
        !submittable(render.model()),
        !submittable(compute.model()),
{
}

} // verus!
