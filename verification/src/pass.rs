//! The descriptors of a render pass, in the caller's form and in the native one.
//!
//! Both forms are the same records; they differ in what stands for the attachment: a
//! borrowed texture view on the caller's side, its identifier on the native side.

use vstd::prelude::*;
use crate::bounded::MAX_COLOR_ATTACHMENTS;
use crate::error::MarshalError;
use crate::handle::{Handle, TextureView};
use crate::id::Id;
use crate::native::RenderPassModel;
use crate::types::{Color, LoadOp, StoreOp};

verus! {

/// One colour attachment of a render pass.
#[derive(Clone, Copy, Debug, PartialEq, Eq)]
pub struct RenderPassColorAttachmentDescriptor<T> {
    pub attachment: T,
    pub load_op: LoadOp,
    pub store_op: StoreOp,
    pub clear_color: Color,
}

/// The depth-stencil attachment of a render pass. `clear_depth` is the bit pattern of a
/// single-precision number.
#[derive(Clone, Copy, Debug, PartialEq, Eq)]
pub struct RenderPassDepthStencilAttachmentDescriptor<T> {
    pub attachment: T,
    pub depth_load_op: LoadOp,
    pub depth_store_op: StoreOp,
    pub clear_depth: u32,
    pub stencil_load_op: LoadOp,
    pub stencil_store_op: StoreOp,
    pub clear_stencil: u32,
}

/// What a render pass draws into: its colour attachments, in order, and at most one
/// depth-stencil attachment.
pub struct RenderPassDescriptor<'a, T> {
    pub color_attachments: &'a [RenderPassColorAttachmentDescriptor<T>],
    pub depth_stencil_attachment: Option<RenderPassDepthStencilAttachmentDescriptor<T>>,
}

/// The flat form of a colour attachment: the view by its identifier, the rest as it is.
pub open spec fn flat_color(
    c: RenderPassColorAttachmentDescriptor<&TextureView>,
) -> RenderPassColorAttachmentDescriptor<Id> {
    RenderPassColorAttachmentDescriptor {
        attachment: c.attachment.ident(),
        load_op: c.load_op,
        store_op: c.store_op,
        clear_color: c.clear_color,
    }
}

/// The flat form of a depth-stencil attachment: the view by its identifier, the rest as
/// it is.
pub open spec fn flat_depth_stencil(
    d: RenderPassDepthStencilAttachmentDescriptor<&TextureView>,
) -> RenderPassDepthStencilAttachmentDescriptor<Id> {
    RenderPassDepthStencilAttachmentDescriptor {
        attachment: d.attachment.ident(),
        depth_load_op: d.depth_load_op,
        depth_store_op: d.depth_store_op,
        clear_depth: d.clear_depth,
        stencil_load_op: d.stencil_load_op,
        stencil_store_op: d.stencil_store_op,
        clear_stencil: d.clear_stencil,
    }
}

/// The flat forms of `colors`, in the same order.
pub open spec fn flat_colors(
    colors: Seq<RenderPassColorAttachmentDescriptor<&TextureView>>,
) -> Seq<RenderPassColorAttachmentDescriptor<Id>> {
    Seq::new(colors.len(), |i: int| flat_color(colors[i]))
}

impl<'a, 'b> RenderPassDescriptor<'a, &'b TextureView> {
    /// Why this descriptor cannot be flattened, if it cannot: it carries more than
    /// [`MAX_COLOR_ATTACHMENTS`] colour attachments.
    pub open spec fn marshal_error(&self) -> Option<MarshalError> {
        if self.color_attachments@.len() > MAX_COLOR_ATTACHMENTS {
            Some(
                MarshalError::CapacityExceeded {
                    limit: MAX_COLOR_ATTACHMENTS,
                    given: self.color_attachments@.len() as usize,
                },
            )
        } else {
            None
        }
    }

    /// The flat form of this descriptor: the colour attachments in order, and the
    /// depth-stencil attachment present exactly when it is present here.
    pub open spec fn flat(&self) -> RenderPassModel {
        RenderPassModel {
            color_attachments: flat_colors(self.color_attachments@),
            depth_stencil_attachment: match self.depth_stencil_attachment {
                Some(d) => Some(flat_depth_stencil(d)),
                None => None,
            },
        }
    }
}

} // verus!
