use encoder_firmware::display::{DisplayOp, FrameResult, RenderStep};
use encoder_firmware::message::DisplayMessage;

// Runs one frame against a display whose draw and flush end as given, and
// returns the operations carried out and the frame's result.
fn run(message: &DisplayMessage, draw_ok: bool, flush_ok: bool) -> (Vec<DisplayOp>, FrameResult) {
    let mut ops = Vec::new();
    let mut step = RenderStep::begin(message);
    loop {
        match step {
            RenderStep::Run(op) => {
                ops.push(op);
                let ok = match op {
                    DisplayOp::Clear => true,
                    DisplayOp::Draw => draw_ok,
                    DisplayOp::Flush => flush_ok,
                };
                step = step.advance(ok);
            }
            RenderStep::Done(result) => return (ops, result),
        }
    }
}

#[test]
fn frame_with_clear_runs_three_operations() {
    let message = DisplayMessage::idle();
    assert!(message.clear);
    let (ops, result) = run(&message, true, true);
    assert_eq!(ops, vec![DisplayOp::Clear, DisplayOp::Draw, DisplayOp::Flush]);
    assert_eq!(result, FrameResult::Shown);
}

#[test]
fn frame_without_clear_starts_with_the_draw() {
    let mut message = DisplayMessage::idle();
    message.clear = false;
    let (ops, result) = run(&message, true, true);
    assert_eq!(ops, vec![DisplayOp::Draw, DisplayOp::Flush]);
    assert_eq!(result, FrameResult::Shown);
}

#[test]
fn failed_draw_skips_the_frame_without_a_flush() {
    let message = DisplayMessage::button(0);
    let (ops, result) = run(&message, false, true);
    assert_eq!(ops, vec![DisplayOp::Clear, DisplayOp::Draw]);
    assert_eq!(result, FrameResult::Skipped(DisplayOp::Draw));
}

#[test]
fn failed_flush_skips_the_frame() {
    let message = DisplayMessage::button(0);
    let (ops, result) = run(&message, true, false);
    assert_eq!(ops, vec![DisplayOp::Clear, DisplayOp::Draw, DisplayOp::Flush]);
    assert_eq!(result, FrameResult::Skipped(DisplayOp::Flush));
}

#[test]
fn outcome_of_a_clear_is_not_looked_at() {
    let step = RenderStep::Run(DisplayOp::Clear);
    assert_eq!(step.advance(true), RenderStep::Run(DisplayOp::Draw));
    assert_eq!(step.advance(false), RenderStep::Run(DisplayOp::Draw));
}

#[test]
fn finished_render_stays_finished() {
    for result in [
        FrameResult::Shown,
        FrameResult::Skipped(DisplayOp::Draw),
        FrameResult::Skipped(DisplayOp::Flush),
    ] {
        let step = RenderStep::Done(result);
        assert_eq!(step.advance(true), step);
        assert_eq!(step.advance(false), step);
        assert_eq!(step.result(), Some(result));
    }
}

#[test]
fn running_render_has_no_result() {
    for op in [DisplayOp::Clear, DisplayOp::Draw, DisplayOp::Flush] {
        assert_eq!(RenderStep::Run(op).result(), None);
    }
}
