//! Submission of finished command buffers.

use vstd::prelude::*;
use crate::descriptor::idents;
use crate::handle::{CommandBuffer, Handle, Queue};
use crate::marshal;
use crate::native::{CallModel, NativeCall};

verus! {

impl Queue {
    /// Describes the submission of `command_buffers` to this queue: their identifiers,
    /// all of them, in the order given.
    ///
    /// Only idle command buffers can be named here: one with a pass open is held by the
    /// pass.
    pub fn submit(&self, command_buffers: &[CommandBuffer]) -> (call: NativeCall)
        ensures
            call@ == (CallModel::QueueSubmit {
                queue: self.ident(),
                command_buffers: idents(command_buffers@),
            }),
    {
        NativeCall::QueueSubmit { queue: self.id(), command_buffers: marshal::ids(command_buffers) }
    }
}

} // verus!
