//! The recording of one command buffer as a state machine.
//!
//! A command buffer is idle, or a render pass is open on it, or a compute pass is. Each
//! operation of the encoding interface is a step of this machine: it is enabled in some
//! states, leads to one next state, and issues one native call. The handle types of
//! `command` refine the machine: a `CommandBuffer` is always idle, and a pass is always
//! open.

use vstd::prelude::*;
use crate::id::Id;
use crate::native::{CallModel, RenderPassModel};

verus! {

/// Whether a pass is open on a command buffer, and which.
#[derive(Clone, Copy, Debug, PartialEq, Eq, Structural)]
pub enum PassState {
    Idle,
    RenderPassOpen { pass: Id },
    ComputePassOpen { pass: Id },
}

/// A command buffer together with its pass state.
pub struct Recording {
    pub command_buffer: Id,
    pub state: PassState,
}

/// One operation of the encoding interface. The `pass` of a `Begin` is the identifier
/// that the native layer returns for the new pass.
pub enum Op {
    BeginRenderPass { desc: RenderPassModel, pass: Id },
    BeginComputePass { pass: Id },
    EndPass,
    SetBindGroup { index: u32, bind_group: Id },
    SetPipeline { pipeline: Id },
    Dispatch { x: u32, y: u32, z: u32 },
}

/// The step that `op` makes from `r`: the next state and the native call issued, or
/// `None` where `op` is not enabled in `r`.
pub open spec fn step(r: Recording, op: Op) -> Option<(Recording, CallModel)> {
    match (r.state, op) {
        (PassState::Idle, Op::BeginRenderPass { desc, pass }) => Some(
            (
                Recording { command_buffer: r.command_buffer, state: PassState::RenderPassOpen { pass } },
                CallModel::CommandBufferBeginRenderPass { command_buffer: r.command_buffer, desc },
            ),
        ),
        (PassState::Idle, Op::BeginComputePass { pass }) => Some(
            (
                Recording { command_buffer: r.command_buffer, state: PassState::ComputePassOpen { pass } },
                CallModel::CommandBufferBeginComputePass { command_buffer: r.command_buffer },
            ),
        ),
        (PassState::RenderPassOpen { pass }, Op::EndPass) => Some(
            (
                Recording { command_buffer: r.command_buffer, state: PassState::Idle },
                CallModel::RenderPassEndPass { pass },
            ),
        ),
        (PassState::ComputePassOpen { pass }, Op::EndPass) => Some(
            (
                Recording { command_buffer: r.command_buffer, state: PassState::Idle },
                CallModel::ComputePassEndPass { pass },
            ),
        ),
        (PassState::ComputePassOpen { pass }, Op::SetBindGroup { index, bind_group }) => Some(
            (r, CallModel::ComputePassSetBindGroup { pass, index, bind_group }),
        ),
        (PassState::ComputePassOpen { pass }, Op::SetPipeline { pipeline }) => Some(
            (r, CallModel::ComputePassSetPipeline { pass, pipeline }),
        ),
        (PassState::ComputePassOpen { pass }, Op::Dispatch { x, y, z }) => Some(
            (r, CallModel::ComputePassDispatch { pass, x, y, z }),
        ),
        _ => None,
    }
}

/// Whether a queue may be handed `r`: only with no pass open.
pub open spec fn submittable(r: Recording) -> bool {
    r.state is Idle
}

/// Whether `op` begins a pass.
pub open spec fn begins_pass(op: Op) -> bool {
    op is BeginRenderPass || op is BeginComputePass
}

/// Whether `op` is one of the commands of a compute pass.
pub open spec fn is_compute_command(op: Op) -> bool {
    op is SetBindGroup || op is SetPipeline || op is Dispatch
}

/// At most one pass is open at a time: a pass begins only on an idle command buffer, and
/// a command buffer with a pass open cannot be submitted.
pub proof fn law_one_pass_at_a_time(r: Recording, op: Op)
    requires
        begins_pass(op),
    ensures
        step(r, op) is Some <==> r.state is Idle,
        step(r, op) is Some ==> !(step(r, op)->Some_0.0.state is Idle),
        !(r.state is Idle) ==> !submittable(r),
{
}

/// Ending a pass gives back the command buffer that the pass was begun on, idle as it
/// was: it can be submitted, and a new pass of either kind can begin on it.
pub proof fn law_end_pass_returns_command_buffer(r: Recording, begin: Op, again: Op)
    requires
        r.state is Idle,
        begins_pass(begin),
        begins_pass(again),
    ensures
        step(r, begin) is Some,
        step(step(r, begin)->Some_0.0, Op::EndPass) is Some,
        step(step(r, begin)->Some_0.0, Op::EndPass)->Some_0.0 == r,
        submittable(step(step(r, begin)->Some_0.0, Op::EndPass)->Some_0.0),
        step(step(step(r, begin)->Some_0.0, Op::EndPass)->Some_0.0, again) is Some,
{
}

/// The native call that ends a pass releases the identifier under which that pass was
/// opened, and no other.
pub proof fn law_end_pass_releases_its_pass(r: Recording, begin: Op)
    requires
        r.state is Idle,
        begins_pass(begin),
    ensures
        begin matches Op::BeginRenderPass { pass, .. } ==> step(
            step(r, begin)->Some_0.0,
            Op::EndPass,
        )->Some_0.1 == (CallModel::RenderPassEndPass { pass }),
        begin matches Op::BeginComputePass { pass } ==> step(
            step(r, begin)->Some_0.0,
            Op::EndPass,
        )->Some_0.1 == (CallModel::ComputePassEndPass { pass }),
{
}

/// A pass is released once: after its end no operation that names the pass is enabled,
/// neither a second end nor a command of the pass.
pub proof fn law_pass_released_once(r: Recording, op: Op)
    requires
        !(r.state is Idle),
        op is EndPass || is_compute_command(op),
    ensures
        step(r, Op::EndPass) is Some,
        step(step(r, Op::EndPass)->Some_0.0, op) is None,
{
}

/// Ending is the only way out of a pass: any other enabled operation leaves the pass
/// open.
pub proof fn law_end_is_the_only_exit(r: Recording, op: Op)
    requires
        !(r.state is Idle),
        step(r, op) is Some,
    ensures
        step(r, op)->Some_0.0.state is Idle <==> op is EndPass,
        !(op is EndPass) ==> step(r, op)->Some_0.0 == r,
{
}

/// The commands of a compute pass are enabled while a compute pass is open and in no
/// other state.
pub proof fn law_compute_commands_need_open_compute_pass(r: Recording, op: Op)
    requires
        is_compute_command(op),
    ensures
        step(r, op) is Some <==> r.state is ComputePassOpen,
{
}

/// A dispatch inside an open compute pass hands the three counts to the native layer
/// unchanged, under the identifier of that pass, and leaves the pass open.
pub proof fn law_dispatch_forwards_counts(r: Recording, pass: Id, x: u32, y: u32, z: u32)
    requires
        r.state == (PassState::ComputePassOpen { pass }),
    ensures
        step(r, Op::Dispatch { x, y, z }) == Some(
            (r, CallModel::ComputePassDispatch { pass, x, y, z }),
        ),
{
}

/// The run of `ops` from `r`, one after another: the state reached and the native calls
/// issued, in order, or `None` where some operation is not enabled when its turn comes.
pub open spec fn run(r: Recording, ops: Seq<Op>) -> Option<(Recording, Seq<CallModel>)>
    decreases ops.len(),
{
    if ops.len() == 0 {
        Some((r, Seq::<CallModel>::empty()))
    } else {
        match run(r, ops.drop_last()) {
            Some((mid, calls)) => match step(mid, ops.last()) {
                Some((next, call)) => Some((next, calls.push(call))),
                None => None,
            },
            None => None,
        }
    }
}

/// The pass identifiers that the native layer returned to the `Begin` operations among
/// `ops`, in order.
pub open spec fn created_passes(ops: Seq<Op>) -> Seq<Id>
    decreases ops.len(),
{
    if ops.len() == 0 {
        Seq::<Id>::empty()
    } else {
        match ops.last() {
            Op::BeginRenderPass { pass, .. } => created_passes(ops.drop_last()).push(pass),
            Op::BeginComputePass { pass } => created_passes(ops.drop_last()).push(pass),
            _ => created_passes(ops.drop_last()),
        }
    }
}

/// The pass identifiers that the end-of-pass calls among `calls` release, in order.
pub open spec fn released_passes(calls: Seq<CallModel>) -> Seq<Id>
    decreases calls.len(),
{
    if calls.len() == 0 {
        Seq::<Id>::empty()
    } else {
        match calls.last() {
            CallModel::RenderPassEndPass { pass } => released_passes(calls.drop_last()).push(pass),
            CallModel::ComputePassEndPass { pass } => released_passes(calls.drop_last()).push(
                pass,
            ),
            _ => released_passes(calls.drop_last()),
        }
    }
}

/// The pass that is open in `state`, if one is.
pub open spec fn open_pass(state: PassState) -> Option<Id> {
    match state {
        PassState::Idle => None,
        PassState::RenderPassOpen { pass } => Some(pass),
        PassState::ComputePassOpen { pass } => Some(pass),
    }
}

/// Over every run from an idle command buffer: each operation issues exactly one native
/// call; the passes released are the passes created, in the order of their creation, each
/// once; and at every moment all passes created have been released but for the one that
/// is open, if one is. So no pass is released twice unless the native layer returned its
/// identifier twice, and never are two passes open.
pub proof fn law_releases_follow_creations(r: Recording, ops: Seq<Op>)
    requires
        r.state is Idle,
        run(r, ops) is Some,
    ensures
        run(r, ops)->Some_0.0.command_buffer == r.command_buffer,
        run(r, ops)->Some_0.1.len() == ops.len(),
        match open_pass(run(r, ops)->Some_0.0.state) {
            None => released_passes(run(r, ops)->Some_0.1) == created_passes(ops),
            Some(pass) => released_passes(run(r, ops)->Some_0.1).push(pass) == created_passes(
                ops,
            ),
        },
    decreases ops.len(),
{
    if ops.len() > 0 {
        let before = ops.drop_last();
        law_releases_follow_creations(r, before);
        let (mid, calls) = run(r, before)->Some_0;
        let (next, call) = step(mid, ops.last())->Some_0;
        assert(calls.push(call).drop_last() == calls);
        assert(calls.push(call).last() == call);
    }
}

/// The pass that a native call names as the one it acts in, if it names one.
pub open spec fn named_pass(call: CallModel) -> Option<Id> {
    match call {
        CallModel::RenderPassEndPass { pass } => Some(pass),
        CallModel::ComputePassEndPass { pass } => Some(pass),
        CallModel::ComputePassSetBindGroup { pass, .. } => Some(pass),
        CallModel::ComputePassSetPipeline { pass, .. } => Some(pass),
        CallModel::ComputePassDispatch { pass, .. } => Some(pass),
        _ => None,
    }
}

/// Over every run from an idle command buffer: a native call that names a pass names the
/// pass that is open when the call is issued. So no call reads the identifier of a pass
/// that has ended, nor of one that has not begun.
pub proof fn law_calls_name_the_open_pass(r: Recording, ops: Seq<Op>, i: int)
    requires
        r.state is Idle,
        run(r, ops) is Some,
        0 <= i < ops.len(),
    ensures
        run(r, ops.take(i)) is Some,
        run(r, ops)->Some_0.1.len() == ops.len(),
        named_pass(run(r, ops)->Some_0.1[i]) is Some ==> open_pass(
            run(r, ops.take(i))->Some_0.0.state,
        ) == named_pass(run(r, ops)->Some_0.1[i]),
    decreases ops.len(),
{
    let before = ops.drop_last();
    law_releases_follow_creations(r, ops);
    law_releases_follow_creations(r, before);
    if i == ops.len() - 1 {
        assert(ops.take(i) == before);
    } else {
        law_calls_name_the_open_pass(r, before, i);
        assert(ops.take(i) == before.take(i));
    }
}

} // verus!
