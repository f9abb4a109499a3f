//! The blinking LED.

use vstd::prelude::*;
use crate::message::{blink_model, DisplayMessage};

verus! {

/// Time between two toggles of the LED, in milliseconds.
pub const BLINK_PERIOD_MS: u64 = 500;

/// The state of the blink task: whether the LED is lit.
#[derive(Clone, Copy, Debug, PartialEq, Eq, Structural)]
pub struct Blinker {
    pub lit: bool,
}

/// What the blink task does in one cycle.
#[derive(Clone, Copy, Debug, PartialEq, Eq)]
pub struct BlinkCycle {
    /// The level to put on the LED pin.
    pub lit: bool,
    /// The message to hand to the display task.
    pub message: DisplayMessage,
    /// How long to sleep before the next cycle, in milliseconds.
    pub sleep_ms: u64,
}

impl Blinker {
    /// A blinker for an LED that is lit or dark to begin with.
    pub fn new(lit: bool) -> (blinker: Blinker)
        ensures
            blinker.lit == lit,
    {
        Blinker { lit }
    }

    /// One cycle: the LED changes over, the display is told, and the task
    /// sleeps for one period.
    pub fn toggle(&mut self) -> (cycle: BlinkCycle)
        ensures
            final(self).lit == !old(self).lit,
            cycle.lit == final(self).lit,
            cycle.message@ == blink_model(),
            cycle.sleep_ms == BLINK_PERIOD_MS,
    {
        self.lit = !self.lit;
        BlinkCycle { lit: self.lit, message: DisplayMessage::blink(), sleep_ms: BLINK_PERIOD_MS }
    }
}

} // verus!
