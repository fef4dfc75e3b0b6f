//! The discipline of a pass: the device state is touched only between its
//! capture and its restore.

use crate::device::touches_state;
use crate::device::DeviceOp;
use crate::device::Outcome;
use crate::pass::react;
use crate::pass::PassView;
use vstd::prelude::*;

verus! {

/// Whether performing `pending` in order, from a device whose state is
/// captured or not as `captured` says, touches the state only while it is
/// captured, captures only what is not captured, restores only what is, and
/// leaves nothing captured at the end.
pub open spec fn disciplined(pending: Seq<DeviceOp>, captured: bool) -> bool
    decreases pending.len(),
{
    if pending.len() == 0 {
        !captured
    } else {
        match pending[0] {
            DeviceOp::CaptureState => !captured && disciplined(pending.skip(1), true),
            DeviceOp::RestoreState => captured && disciplined(pending.skip(1), false),
            op => (touches_state(op) ==> captured) && disciplined(pending.skip(1), captured),
        }
    }
}

/// Whether `ops` is a capture at `capture`, a restore at the end, nothing
/// that touches the state before the capture and only what touches it in
/// between.
pub open spec fn bracketed(ops: Seq<DeviceOp>, capture: int) -> bool {
    &&& 0 <= capture < ops.len() - 1
    &&& ops[capture] == DeviceOp::CaptureState
    &&& ops.last() == DeviceOp::RestoreState
    &&& forall|k: int|
        0 <= k < capture ==> !touches_state(#[trigger] ops[k]) && ops[k] != DeviceOp::CaptureState
            && ops[k] != DeviceOp::RestoreState
    &&& forall|k: int| capture < k < ops.len() - 1 ==> touches_state(#[trigger] ops[k])
}

/// From position `k` on, bracketed operations are disciplined; the state is
/// captured there exactly between the capture and the end.
proof fn lemma_bracketed_from(ops: Seq<DeviceOp>, capture: int, k: int)
    requires
        bracketed(ops, capture),
        0 <= k <= ops.len(),
    ensures
        disciplined(ops.skip(k), capture < k < ops.len()),
    decreases ops.len() - k,
{
    if k < ops.len() {
        lemma_bracketed_from(ops, capture, k + 1);
        assert(ops.skip(k).skip(1) =~= ops.skip(k + 1));
        assert(ops.skip(k)[0] == ops[k]);
    }
}

/// Operations bracketed by a capture and a restore are disciplined.
pub proof fn lemma_bracketed_is_disciplined(ops: Seq<DeviceOp>, capture: int)
    requires
        bracketed(ops, capture),
    ensures
        disciplined(ops, false),
{
    lemma_bracketed_from(ops, capture, 0);
    assert(ops.skip(0) =~= ops);
}

/// Whether the device refuses the restore of the state with this answer.
pub open spec fn restore_refused(pass: PassView, outcome: Outcome) -> bool {
    pass.pending.len() > 0 && pass.pending[0] == DeviceOp::RestoreState && outcome is Failed
}

/// The pass after the device has answered the steps of a run one by one.
pub open spec fn run(pass: PassView, outcomes: Seq<Outcome>) -> PassView
    decreases outcomes.len(),
{
    if outcomes.len() == 0 {
        pass
    } else {
        react(run(pass, outcomes.drop_last()), outcomes.last())
    }
}

/// Whether the device refuses a restore somewhere in a run.
pub open spec fn restore_refused_in(pass: PassView, outcomes: Seq<Outcome>) -> bool
    decreases outcomes.len(),
{
    if outcomes.len() == 0 {
        false
    } else {
        restore_refused_in(pass, outcomes.drop_last()) || restore_refused(
            run(pass, outcomes.drop_last()),
            outcomes.last(),
        )
    }
}

/// A disciplined pass stays disciplined whatever the device answers, unless
/// it refuses the restore: a failure leads to the restore where state is
/// captured and ends the pass where none is.
pub proof fn lemma_react_keeps_discipline(pass: PassView, outcome: Outcome)
    requires
        disciplined(pass.pending, pass.captured),
        !restore_refused(pass, outcome),
    ensures
        disciplined(react(pass, outcome).pending, react(pass, outcome).captured),
{
    if pass.pending.len() > 0 {
        let next = react(pass, outcome);
        match outcome {
            Outcome::Done => {},
            Outcome::Failed(_) => {
                if pass.captured {
                    let restore = seq![DeviceOp::RestoreState];
                    assert(restore.skip(1) =~= Seq::<DeviceOp>::empty());
                    assert(disciplined(restore.skip(1), false));
                    assert(disciplined(restore, true));
                    if pass.pending[0] is LockIndexBuffer {
                        assert(next.pending.skip(1) =~= restore);
                    }
                }
            },
        }
    }
}

/// Through any run in which the device does not refuse a restore, a
/// disciplined pass stays disciplined.
pub proof fn lemma_run_keeps_discipline(pass: PassView, outcomes: Seq<Outcome>)
    requires
        disciplined(pass.pending, pass.captured),
        !restore_refused_in(pass, outcomes),
    ensures
        disciplined(run(pass, outcomes).pending, run(pass, outcomes).captured),
    decreases outcomes.len(),
{
    if outcomes.len() > 0 {
        lemma_run_keeps_discipline(pass, outcomes.drop_last());
        lemma_react_keeps_discipline(run(pass, outcomes.drop_last()), outcomes.last());
    }
}

} // verus!
