//! The wake-up channel between interrupt handlers and tasks.
//!
//! A queue of at most five one-bit signals in a fixed ring of slots. Both ends
//! are plain calls that return at once: a send into a full queue is refused,
//! a receive from an empty one says so. Waiting for a signal is the caller's
//! business.

use vstd::prelude::*;

verus! {

/// Number of signals the channel can hold.
pub const CHANNEL_CAPACITY: usize = 5;

/// What one attempt to receive found.
#[derive(Clone, Copy, Debug, PartialEq, Eq, Structural)]
pub enum Received {
    /// The oldest pending signal, now taken out of the channel.
    Signal(bool),
    /// Nothing is pending, but a sender may still come.
    Empty,
    /// Nothing is pending and the channel is closed: nothing will come.
    Closed,
}

/// A bounded queue of wake-up signals, first in, first out.
#[derive(Clone, Copy, Debug)]
pub struct NotificationChannel {
    slots: [bool; CHANNEL_CAPACITY],
    head: usize,
    len: usize,
    closed: bool,
}

/// The slot that holds the signal `i` places behind the one at `head`.
spec fn slot_at(head: int, i: int) -> int {
    (head + i) % 5
}

impl View for NotificationChannel {
    type V = Seq<bool>;

    /// The pending signals, oldest first.
    closed spec fn view(&self) -> Seq<bool> {
        Seq::new(self.len as nat, |i: int| self.slots[slot_at(self.head as int, i)])
    }
}

/// What a send of `signal` leaves pending in a queue that held `pending`: the
/// signal behind the others where the channel is open and has room, else what
/// was pending before.
pub open spec fn queue_after_send(pending: Seq<bool>, closed: bool, signal: bool) -> Seq<bool> {
    if !closed && pending.len() < CHANNEL_CAPACITY {
        pending.push(signal)
    } else {
        pending
    }
}

impl NotificationChannel {
    #[verifier::type_invariant]
    spec fn well_formed(self) -> bool {
        &&& self.head < CHANNEL_CAPACITY
        &&& self.len <= CHANNEL_CAPACITY
    }

    /// Whether the sending side has hung up.
    pub closed spec fn closed(&self) -> bool {
        self.closed
    }

    /// Whether a send would be taken: the channel is open and not full.
    pub open spec fn accepts(&self) -> bool {
        !self.closed() && self@.len() < CHANNEL_CAPACITY
    }

    /// What a send of `signal` leaves pending.
    pub open spec fn pending_after_send(&self, signal: bool) -> Seq<bool> {
        queue_after_send(self@, self.closed(), signal)
    }

    /// Whether a receive would return at once with something other than
    /// `Empty`: a signal is pending or the channel is closed.
    pub open spec fn ready(&self) -> bool {
        self@.len() > 0 || self.closed()
    }

    /// An open channel with nothing pending.
    pub fn new() -> (channel: Self)
        ensures
            channel@ == Seq::<bool>::empty(),
            !channel.closed(),
    {
        let channel = NotificationChannel {
            slots: [false; CHANNEL_CAPACITY],
            head: 0,
            len: 0,
            closed: false,
        };
        assert(channel@ =~= Seq::<bool>::empty());
        channel
    }

    /// Number of pending signals.
    pub fn len(&self) -> (n: usize)
        ensures
            n == self@.len(),
            n <= CHANNEL_CAPACITY,
    {
        proof {
            use_type_invariant(self);
        }
        self.len
    }

    /// Whether nothing is pending.
    pub fn is_empty(&self) -> (b: bool)
        ensures
            b == (self@.len() == 0),
    {
        self.len == 0
    }

    /// Whether the channel holds as many signals as it can.
    pub fn is_full(&self) -> (b: bool)
        ensures
            b == (self@.len() == CHANNEL_CAPACITY),
    {
        proof {
            use_type_invariant(self);
        }
        self.len == CHANNEL_CAPACITY
    }

    /// Whether the sending side has hung up.
    pub fn is_closed(&self) -> (b: bool)
        ensures
            b == self.closed(),
    {
        self.closed
    }

    /// Offers one signal to the channel and returns at once.
    ///
    /// Returns `true` where the signal was queued behind those pending.
    /// Returns `false`, with the channel exactly as it was, where the channel
    /// is full or closed: the signal is dropped.
    pub fn try_send(&mut self, signal: bool) -> (sent: bool)
        ensures
            sent == old(self).accepts(),
            sent ==> final(self)@ == old(self)@.push(signal),
            sent ==> final(self).closed() == old(self).closed(),
            !sent ==> *final(self) == *old(self),
            final(self)@ == old(self).pending_after_send(signal),
    {
        proof {
            use_type_invariant(&*self);
        }
        if self.closed || self.len >= CHANNEL_CAPACITY {
            return false;
        }
        let tail: usize = (self.head + self.len) % CHANNEL_CAPACITY;
        let mut slots = self.slots;
        slots[tail] = signal;
        let len: usize = self.len + 1;
        *self = NotificationChannel { slots, head: self.head, len, closed: self.closed };
        proof {
            let before = old(self);
            // Places fewer than five slots apart share no slot.
            assert forall|i: int| 0 <= i < before.len implies #[trigger] slot_at(
                before.head as int,
                i,
            ) != tail by {}
            assert(self@ =~= before@.push(signal));
        }
        true
    }

    /// Takes the oldest pending signal, if there is one, and returns at once.
    ///
    /// With nothing pending the channel is left as it was, and the result
    /// tells whether anything can still come.
    pub fn try_receive(&mut self) -> (got: Received)
        ensures
            old(self)@.len() > 0 ==> got == Received::Signal(old(self)@[0]) && final(self)@ == old(
                self,
            )@.drop_first() && final(self).closed() == old(self).closed(),
            old(self)@.len() == 0 ==> *final(self) == *old(self),
            old(self)@.len() == 0 && old(self).closed() ==> got == Received::Closed,
            old(self)@.len() == 0 && !old(self).closed() ==> got == Received::Empty,
    {
        proof {
            use_type_invariant(&*self);
        }
        if self.len == 0 {
            if self.closed {
                return Received::Closed;
            }
            return Received::Empty;
        }
        let signal: bool = self.slots[self.head];
        let head: usize = (self.head + 1) % CHANNEL_CAPACITY;
        let len: usize = self.len - 1;
        *self = NotificationChannel { slots: self.slots, head, len, closed: self.closed };
        proof {
            let before = old(self);
            assert forall|i: int| 0 <= i < len implies #[trigger] slot_at(head as int, i)
                == slot_at(before.head as int, i + 1) by {}
            assert(self@ =~= before@.drop_first());
        }
        Received::Signal(signal)
    }

    /// Hangs up the sending side. What is pending can still be received;
    /// further sends are refused.
    pub fn close(&mut self)
        ensures
            final(self).closed(),
            final(self)@ == old(self)@,
    {
        proof {
            use_type_invariant(&*self);
        }
        *self = NotificationChannel {
            slots: self.slots,
            head: self.head,
            len: self.len,
            closed: true,
        };
        assert(self@ =~= old(self)@);
    }
}

} // verus!
