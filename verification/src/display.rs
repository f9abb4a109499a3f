//! The steps of one render.
//!
//! The display task owns the display and carries out one operation at a
//! time; after each it reports whether the operation succeeded and is told
//! what comes next. A failed draw or flush ends the frame as skipped: the
//! task goes on to its next message, and no failure of the display reaches
//! the counter.

use vstd::prelude::*;
use crate::message::DisplayMessage;

verus! {

/// One operation of the display.
#[derive(Clone, Copy, Debug, PartialEq, Eq, Structural)]
pub enum DisplayOp {
    /// Blank the frame buffer. Cannot fail.
    Clear,
    /// Draw the message's text in its style, from the top left corner.
    Draw,
    /// Send the frame buffer to the panel.
    Flush,
}

/// How one frame ended.
#[derive(Clone, Copy, Debug, PartialEq, Eq, Structural)]
pub enum FrameResult {
    /// The text was drawn and flushed.
    Shown,
    /// The operation named here failed; the frame was given up.
    Skipped(DisplayOp),
}

/// Where a render stands: an operation to carry out, or the end.
#[derive(Clone, Copy, Debug, PartialEq, Eq, Structural)]
pub enum RenderStep {
    Run(DisplayOp),
    Done(FrameResult),
}

/// The first step of a frame: a clear where the message asks for it, else the
/// draw.
pub open spec fn first_step(clear: bool) -> RenderStep {
    if clear {
        RenderStep::Run(DisplayOp::Clear)
    } else {
        RenderStep::Run(DisplayOp::Draw)
    }
}

/// The step that follows `step` once its operation has ended with
/// `succeeded`.
pub open spec fn step_after(step: RenderStep, succeeded: bool) -> RenderStep {
    match step {
        RenderStep::Run(DisplayOp::Clear) => RenderStep::Run(DisplayOp::Draw),
        RenderStep::Run(DisplayOp::Draw) => if succeeded {
            RenderStep::Run(DisplayOp::Flush)
        } else {
            RenderStep::Done(FrameResult::Skipped(DisplayOp::Draw))
        },
        RenderStep::Run(DisplayOp::Flush) => if succeeded {
            RenderStep::Done(FrameResult::Shown)
        } else {
            RenderStep::Done(FrameResult::Skipped(DisplayOp::Flush))
        },
        RenderStep::Done(result) => RenderStep::Done(result),
    }
}

/// How a frame ends, given how its draw and its flush would end.
pub open spec fn frame_result(draw_ok: bool, flush_ok: bool) -> FrameResult {
    if !draw_ok {
        FrameResult::Skipped(DisplayOp::Draw)
    } else if !flush_ok {
        FrameResult::Skipped(DisplayOp::Flush)
    } else {
        FrameResult::Shown
    }
}

impl RenderStep {
    /// The first step of the render of `message`.
    pub fn begin(message: &DisplayMessage) -> (step: RenderStep)
        ensures
            step == first_step(message.clear),
    {
        if message.clear {
            RenderStep::Run(DisplayOp::Clear)
        } else {
            RenderStep::Run(DisplayOp::Draw)
        }
    }

    /// The step after this one, given whether this one's operation succeeded.
    /// The outcome of a clear is not looked at; a finished render stays
    /// finished.
    pub fn advance(self, succeeded: bool) -> (next: RenderStep)
        ensures
            next == step_after(self, succeeded),
    {
        match self {
            RenderStep::Run(DisplayOp::Clear) => RenderStep::Run(DisplayOp::Draw),
            RenderStep::Run(DisplayOp::Draw) => {
                if succeeded {
                    RenderStep::Run(DisplayOp::Flush)
                } else {
                    RenderStep::Done(FrameResult::Skipped(DisplayOp::Draw))
                }
            },
            RenderStep::Run(DisplayOp::Flush) => {
                if succeeded {
                    RenderStep::Done(FrameResult::Shown)
                } else {
                    RenderStep::Done(FrameResult::Skipped(DisplayOp::Flush))
                }
            },
            RenderStep::Done(result) => RenderStep::Done(result),
        }
    }

    /// The result of the frame, once the render is finished.
    pub fn result(self) -> (r: Option<FrameResult>)
        ensures
            r == (match self {
                RenderStep::Done(result) => Some(result),
                RenderStep::Run(_) => None::<FrameResult>,
            }),
    {
        match self {
            RenderStep::Done(result) => Some(result),
            RenderStep::Run(_) => None,
        }
    }
}

/// Every frame ends, and ends as its draw and flush decide.
///
/// A frame without a clear is a draw and, if that succeeds, a flush; with a
/// clear, the clear comes first and its outcome changes nothing. No frame
/// takes more than three operations, and a flush is never run after a failed
/// draw.
pub proof fn lemma_frame_ends(clear_ok: bool, draw_ok: bool, flush_ok: bool)
    ensures
        step_after(step_after(first_step(false), draw_ok), flush_ok) == RenderStep::Done(
            frame_result(draw_ok, flush_ok),
        ),
        step_after(step_after(step_after(first_step(true), clear_ok), draw_ok), flush_ok)
            == RenderStep::Done(frame_result(draw_ok, flush_ok)),
        !draw_ok ==> step_after(first_step(false), draw_ok) is Done,
        !draw_ok ==> step_after(step_after(first_step(true), clear_ok), draw_ok) is Done,
{
}

} // verus!
