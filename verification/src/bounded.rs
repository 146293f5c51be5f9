//! The two inline buffers of fixed capacity that flattened descriptors are gathered in.
//!
//! Each is an `arrayvec::ArrayVec` behind a struct of this crate. What a buffer holds is
//! named by a specification function; the functions that touch the `ArrayVec` state their
//! effect over that name and are believed, not proved.

use vstd::prelude::*;
use arrayvec::ArrayVec;
use crate::id::Id;
use crate::native::PipelineStageDescriptor;
use crate::pass::RenderPassColorAttachmentDescriptor;

verus! {

/// The most stages a render pipeline descriptor may carry.
pub const MAX_STAGES: usize = 2;

/// The most colour attachments a render pass descriptor may carry.
pub const MAX_COLOR_ATTACHMENTS: usize = 4;

/// The flattened stages of one render pipeline: at most [`MAX_STAGES`] records, inline.
///
/// Trusted: the field is an `arrayvec::ArrayVec`, which Verus does not look into.
#[derive(Debug, PartialEq)]
#[verifier::external_body]
pub struct StageList {
    inner: ArrayVec<[PipelineStageDescriptor; 2]>,
}

/// The records that a [`StageList`] holds, first pushed first.
pub uninterp spec fn stage_list_items(list: StageList) -> Seq<PipelineStageDescriptor>;

/// The flattened colour attachments of one render pass: at most
/// [`MAX_COLOR_ATTACHMENTS`] records, inline.
///
/// Trusted: the field is an `arrayvec::ArrayVec`, which Verus does not look into.
#[derive(Debug, PartialEq)]
#[verifier::external_body]
pub struct ColorAttachmentList {
    inner: ArrayVec<[RenderPassColorAttachmentDescriptor<Id>; 4]>,
}

/// The records that a [`ColorAttachmentList`] holds, first pushed first.
pub uninterp spec fn color_list_items(list: ColorAttachmentList) -> Seq<
    RenderPassColorAttachmentDescriptor<Id>,
>;

/// Trusted: `ArrayVec::new` for two stages. It returns a vector of length zero.
#[verifier::external_body]
pub(crate) fn stage_list_new() -> (list: StageList)
    ensures
        stage_list_items(list) == Seq::<PipelineStageDescriptor>::empty(),
{
    StageList { inner: ArrayVec::new() }
}

/// Trusted: `ArrayVec::push` for two stages. Below capacity it writes the element behind
/// the last one and leaves the others alone; at capacity it would panic, which the
/// precondition rules out.
#[verifier::external_body]
pub(crate) fn stage_list_push(list: &mut StageList, stage: PipelineStageDescriptor)
    requires
        stage_list_items(*old(list)).len() < MAX_STAGES,
    ensures
        stage_list_items(*final(list)) == stage_list_items(*old(list)).push(stage),
{
    list.inner.push(stage)
}

/// Trusted: `ArrayVec::as_slice` for two stages. The slice shows the elements pushed so
/// far, in order.
#[verifier::external_body]
fn stage_list_as_slice(list: &StageList) -> (items: &[PipelineStageDescriptor])
    ensures
        items@ == stage_list_items(*list),
{
    list.inner.as_slice()
}

/// Trusted: `ArrayVec::new` for four colour attachments. It returns a vector of length
/// zero.
#[verifier::external_body]
pub(crate) fn color_list_new() -> (list: ColorAttachmentList)
    ensures
        color_list_items(list) == Seq::<RenderPassColorAttachmentDescriptor<Id>>::empty(),
{
    ColorAttachmentList { inner: ArrayVec::new() }
}

/// Trusted: `ArrayVec::push` for four colour attachments. Below capacity it writes the
/// element behind the last one and leaves the others alone; at capacity it would panic,
/// which the precondition rules out.
#[verifier::external_body]
pub(crate) fn color_list_push(
    list: &mut ColorAttachmentList,
    attachment: RenderPassColorAttachmentDescriptor<Id>,
)
    requires
        color_list_items(*old(list)).len() < MAX_COLOR_ATTACHMENTS,
    ensures
        color_list_items(*final(list)) == color_list_items(*old(list)).push(attachment),
{
    list.inner.push(attachment)
}

/// Trusted: `ArrayVec::as_slice` for four colour attachments. The slice shows the
/// elements pushed so far, in order.
#[verifier::external_body]
fn color_list_as_slice(list: &ColorAttachmentList) -> (items: &[RenderPassColorAttachmentDescriptor<
    Id,
>])
    ensures
        items@ == color_list_items(*list),
{
    list.inner.as_slice()
}

impl View for StageList {
    type V = Seq<PipelineStageDescriptor>;

    open spec fn view(&self) -> Seq<PipelineStageDescriptor> {
        stage_list_items(*self)
    }
}

impl StageList {
    /// The records held, in order.
    pub fn as_slice(&self) -> (items: &[PipelineStageDescriptor])
        ensures
            items@ == self@,
    {
        stage_list_as_slice(self)
    }
}

impl View for ColorAttachmentList {
    type V = Seq<RenderPassColorAttachmentDescriptor<Id>>;

    open spec fn view(&self) -> Seq<RenderPassColorAttachmentDescriptor<Id>> {
        color_list_items(*self)
    }
}

impl ColorAttachmentList {
    /// The records held, in order.
    pub fn as_slice(&self) -> (items: &[RenderPassColorAttachmentDescriptor<Id>])
        ensures
            items@ == self@,
    {
        color_list_as_slice(self)
    }
}

} // verus!
