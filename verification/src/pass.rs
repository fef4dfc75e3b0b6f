//! One frame's rendering as a sequence of steps: the renderer hands out a
//! device operation, the caller performs it and reports how it went.

use crate::device::DeviceOp;
use crate::device::Outcome;
use crate::device::RenderError;
use crate::vertex::CustomVertex;
use crate::vertex::DrawIdx;
use vstd::prelude::*;

verus! {

/// What the caller does next.
#[derive(Clone, Copy, Debug, PartialEq, Eq)]
pub enum Step {
    /// Perform this operation and report its outcome.
    Perform(DeviceOp),
    /// The frame is over, with this result.
    Finished(Result<(), RenderError>),
}

/// A pass as contracts see it.
pub struct PassView {
    /// The operations still to perform, the next one first.
    pub pending: Seq<DeviceOp>,
    /// The result of the frame once nothing is pending.
    pub verdict: Result<(), RenderError>,
    /// Whether the device state is captured and not yet restored.
    pub captured: bool,
}

/// The step a pass is at.
pub open spec fn current_step(pass: PassView) -> Step {
    if pass.pending.len() > 0 {
        Step::Perform(pass.pending[0])
    } else {
        Step::Finished(pass.verdict)
    }
}

/// The pass after the device has answered the operation it was at.
///
/// A success moves on to the next operation. A failure ends the frame with
/// the device's error: at once where no state is captured; behind the restore
/// of the captured state otherwise, and where the lock of the index buffer
/// failed, behind the unlock of the vertex buffer before that. Where the
/// restore itself fails nothing more can be done: the frame ends with the
/// error it had, or with the restore's.
pub open spec fn react(pass: PassView, outcome: Outcome) -> PassView {
    if pass.pending.len() == 0 {
        pass
    } else {
        let op = pass.pending[0];
        match outcome {
            Outcome::Done => PassView {
                pending: pass.pending.skip(1),
                verdict: pass.verdict,
                captured: match op {
                    DeviceOp::CaptureState => true,
                    DeviceOp::RestoreState => false,
                    _ => pass.captured,
                },
            },
            Outcome::Failed(code) => match op {
                DeviceOp::RestoreState => PassView {
                    pending: Seq::empty(),
                    verdict: match pass.verdict {
                        Ok(_) => Err(RenderError::Device(code)),
                        Err(e) => Err(e),
                    },
                    captured: pass.captured,
                },
                _ => PassView {
                    pending: if !pass.captured {
                        Seq::empty()
                    } else if op is LockIndexBuffer {
                        seq![DeviceOp::UnlockVertexBuffer, DeviceOp::RestoreState]
                    } else {
                        seq![DeviceOp::RestoreState]
                    },
                    verdict: Err(RenderError::Device(code)),
                    captured: pass.captured,
                },
            },
        }
    }
}

/// One frame in progress.
pub struct RenderPass {
    script: Vec<DeviceOp>,
    cursor: usize,
    verdict: Result<(), RenderError>,
    captured: bool,
    vertices: Vec<CustomVertex>,
    indices: Vec<DrawIdx>,
}

impl View for RenderPass {
    type V = PassView;

    closed spec fn view(&self) -> PassView {
        PassView {
            pending: if self.cursor <= self.script@.len() {
                self.script@.skip(self.cursor as int)
            } else {
                Seq::empty()
            },
            verdict: self.verdict,
            captured: self.captured,
        }
    }
}

impl RenderPass {
    /// The device vertices that fill the vertex buffer.
    pub closed spec fn vertex_data(&self) -> Seq<CustomVertex> {
        self.vertices@
    }

    /// The indices that fill the index buffer.
    pub closed spec fn index_data(&self) -> Seq<DrawIdx> {
        self.indices@
    }

    /// A pass that performs `script` and then ends with `verdict`, filling
    /// the buffers with `vertices` and `indices`.
    pub fn new(
        script: Vec<DeviceOp>,
        verdict: Result<(), RenderError>,
        vertices: Vec<CustomVertex>,
        indices: Vec<DrawIdx>,
    ) -> (pass: RenderPass)
        ensures
            pass@ == (PassView { pending: script@, verdict, captured: false }),
            pass.vertex_data() == vertices@,
            pass.index_data() == indices@,
    {
        let pass = RenderPass { script, cursor: 0, verdict, captured: false, vertices, indices };
        assert(pass@.pending =~= script@);
        pass
    }

    /// The step the pass is at.
    pub fn current(&self) -> (step: Step)
        ensures
            step == current_step(self@),
    {
        if self.cursor < self.script.len() {
            Step::Perform(self.script[self.cursor])
        } else {
            Step::Finished(self.verdict)
        }
    }

    /// Takes the device's answer to the operation the pass is at.
    pub fn advance(&mut self, outcome: Outcome)
        ensures
            final(self)@ == react(old(self)@, outcome),
            final(self).vertex_data() == old(self).vertex_data(),
            final(self).index_data() == old(self).index_data(),
    {
        if self.cursor >= self.script.len() {
            assert(self@.pending =~= Seq::<DeviceOp>::empty());
            return ;
        }
        let op = self.script[self.cursor];
        match outcome {
            Outcome::Done => {
                match op {
                    DeviceOp::CaptureState => {
                        self.captured = true;
                    },
                    DeviceOp::RestoreState => {
                        self.captured = false;
                    },
                    _ => {},
                }
                self.cursor = self.cursor + 1;
                assert(self@.pending =~= old(self)@.pending.skip(1));
            },
            Outcome::Failed(code) => {
                let mut rest: Vec<DeviceOp> = Vec::new();
                match op {
                    DeviceOp::RestoreState => {
                        self.verdict = match self.verdict {
                            Ok(_) => Err(RenderError::Device(code)),
                            Err(e) => Err(e),
                        };
                    },
                    _ => {
                        if self.captured {
                            match op {
                                DeviceOp::LockIndexBuffer { .. } => {
                                    rest.push(DeviceOp::UnlockVertexBuffer);
                                },
                                _ => {},
                            }
                            rest.push(DeviceOp::RestoreState);
                        }
                        self.verdict = Err(RenderError::Device(code));
                    },
                }
                self.script = rest;
                self.cursor = 0;
                assert(self@.pending =~= react(old(self)@, outcome).pending);
            },
        }
    }

    /// The device vertices to copy into the locked vertex buffer.
    pub fn vertices(&self) -> (data: &Vec<CustomVertex>)
        ensures
            data@ == self.vertex_data(),
    {
        &self.vertices
    }

    /// The indices to copy into the locked index buffer.
    pub fn indices(&self) -> (data: &Vec<DrawIdx>)
        ensures
            data@ == self.index_data(),
    {
        &self.indices
    }
}

} // verus!
