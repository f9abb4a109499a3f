//! What the interrupt handler decides.
//!
//! The handler finds out which lines are pending, reads the two quadrature
//! lines, calls [`on_interrupt`] and carries out what comes back: it
//! acknowledges the pending lines and asks for a render of each returned
//! message. Render requests and wake-up signals are best effort; a full queue
//! drops them and the handler goes on.

use vstd::prelude::*;
use crate::channel::{queue_after_send, NotificationChannel};
use crate::encoder::{EncoderState, LinePair};
use crate::message::{button_model, tick_model, DisplayMessage, MessageModel};

verus! {

/// The signal that handlers put on the wake-up channel.
pub const WAKE: bool = true;

/// Which of the encoder's lines have an interrupt pending.
#[derive(Clone, Copy, Debug, PartialEq, Eq, Structural)]
pub struct PendingLines {
    pub button: bool,
    pub s1: bool,
    pub s2: bool,
}

/// The renders that one pass of the handler asks for, in the order in which
/// they are to be requested.
#[derive(Clone, Copy, Debug, PartialEq, Eq)]
pub struct Requested {
    /// The message of a button press, where the button line was pending.
    pub button: Option<DisplayMessage>,
    /// The message of a tick, where a quadrature line was pending and the
    /// sample completed a detent.
    pub tick: Option<DisplayMessage>,
}

impl PendingLines {
    /// Whether either quadrature line is pending.
    pub open spec fn quadrature(self) -> bool {
        self.s1 || self.s2
    }
}

/// A render request as contracts speak of it.
pub open spec fn request_model(request: Option<DisplayMessage>) -> Option<MessageModel> {
    match request {
        Some(message) => Some(message@),
        None => None,
    }
}

/// The render that a sample asks for: the message of the tick that it
/// completes, with the counter as the tick leaves it, or nothing.
pub open spec fn tick_request(state: EncoderState, sample: LinePair) -> Option<MessageModel> {
    match state.history.classify(sample) {
        Some(direction) => Some(tick_model(state.after_sample(sample).counter, direction)),
        None => None,
    }
}

/// The encoder after the button's part of one pass of the handler.
pub open spec fn after_button(state: EncoderState, pending: PendingLines) -> EncoderState {
    if pending.button {
        state.after_press()
    } else {
        state
    }
}

/// The encoder after one pass of the handler: the button first, where it is
/// pending, then the sample, where a quadrature line is.
pub open spec fn after_pass(state: EncoderState, pending: PendingLines, sample: LinePair)
    -> EncoderState {
    if pending.quadrature() {
        after_button(state, pending).after_sample(sample)
    } else {
        after_button(state, pending)
    }
}

/// Whether the sample of one pass of the handler is a tick.
pub open spec fn pass_ticks(state: EncoderState, pending: PendingLines, sample: LinePair) -> bool {
    pending.quadrature() && state.history.classify(sample) is Some
}

/// What is pending on the channel after one pass of the handler: one signal
/// more for a pending button and one more for a tick, as far as the channel
/// takes them.
pub open spec fn queue_after_pass(
    queue: Seq<bool>,
    closed: bool,
    state: EncoderState,
    pending: PendingLines,
    sample: LinePair,
) -> Seq<bool> {
    let with_button = if pending.button {
        queue_after_send(queue, closed, WAKE)
    } else {
        queue
    };
    if pass_ticks(state, pending, sample) {
        queue_after_send(with_button, closed, WAKE)
    } else {
        with_button
    }
}

/// Handles an edge on either quadrature line, given the levels of both lines
/// read in the handler.
///
/// The encoder takes the sample. Where the sample completes a detent, the
/// result is the message that shows the new counter and the direction, and a
/// wake-up signal is offered to the channel, which drops it if it is full or
/// closed. Where it completes none, nothing is asked for and the channel is
/// not touched.
pub fn on_quadrature_edge(
    encoder: &mut EncoderState,
    channel: &mut NotificationChannel,
    s1: bool,
    s2: bool,
) -> (render: Option<DisplayMessage>)
    ensures
        *final(encoder) == old(encoder).after_sample(LinePair { s1, s2 }),
        request_model(render) == tick_request(*old(encoder), LinePair { s1, s2 }),
        final(channel).closed() == old(channel).closed(),
        final(channel)@ == (if render is Some {
            old(channel).pending_after_send(WAKE)
        } else {
            old(channel)@
        }),
        render is None ==> *final(channel) == *old(channel),
{
    match encoder.sample(s1, s2) {
        Some(direction) => {
            let _ = channel.try_send(WAKE);
            Some(DisplayMessage::tick(encoder.counter(), direction))
        },
        None => None,
    }
}

/// Handles a falling edge on the button line.
///
/// The counter goes to zero whatever it was, the history stays, the result is
/// the message that shows the reset counter, and a wake-up signal is offered
/// to the channel.
pub fn on_button_edge(encoder: &mut EncoderState, channel: &mut NotificationChannel) -> (render:
    DisplayMessage)
    ensures
        *final(encoder) == old(encoder).after_press(),
        final(encoder).counter == 0,
        render@ == button_model(0),
        final(channel).closed() == old(channel).closed(),
        final(channel)@ == old(channel).pending_after_send(WAKE),
{
    encoder.press();
    let _ = channel.try_send(WAKE);
    DisplayMessage::button(encoder.counter())
}

/// One pass of the handler that serves all three lines: `pending` says which
/// lines raised the interrupt, `s1` and `s2` are the levels of the quadrature
/// lines read in the handler.
///
/// A pending button is handled first, then the sample, where either
/// quadrature line is pending; a line that is not pending has no effect. The
/// channel is offered one signal for the button and one for a tick.
pub fn on_interrupt(
    encoder: &mut EncoderState,
    channel: &mut NotificationChannel,
    pending: PendingLines,
    s1: bool,
    s2: bool,
) -> (requested: Requested)
    ensures
        *final(encoder) == after_pass(*old(encoder), pending, LinePair { s1, s2 }),
        request_model(requested.button) == (if pending.button {
            Some(button_model(0))
        } else {
            None
        }),
        request_model(requested.tick) == (if pending.quadrature() {
            tick_request(after_button(*old(encoder), pending), LinePair { s1, s2 })
        } else {
            None
        }),
        final(channel).closed() == old(channel).closed(),
        final(channel)@ == queue_after_pass(
            old(channel)@,
            old(channel).closed(),
            *old(encoder),
            pending,
            LinePair { s1, s2 },
        ),
        requested.button is None && requested.tick is None ==> *final(channel) == *old(channel),
{
    let button = if pending.button {
        Some(on_button_edge(encoder, channel))
    } else {
        None
    };
    let tick = if pending.s1 || pending.s2 {
        on_quadrature_edge(encoder, channel, s1, s2)
    } else {
        None
    };
    Requested { button, tick }
}

} // verus!
