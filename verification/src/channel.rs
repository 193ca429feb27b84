//! The per-frame buffer through which a live minigame reports its round
//! outcome. In correct operation exactly one message arrives per round;
//! a burst within one frame is tolerated and drained in arrival order.

use vstd::prelude::*;

use crate::game::{NextGame, RoundResult};

verus! {

/// Bounded-by-frame buffer of round results, drained once per engine tick.
pub struct RoundResultChannel {
    queue: Vec<RoundResult>,
}

impl View for RoundResultChannel {
    type V = Seq<RoundResult>;

    closed spec fn view(&self) -> Seq<RoundResult> {
        self.queue@
    }
}

impl RoundResultChannel {
    /// An empty channel.
    pub fn new() -> (c: RoundResultChannel)
        ensures
            c@ == Seq::<RoundResult>::empty(),
    {
        RoundResultChannel { queue: Vec::new() }
    }

    /// Number of results waiting to be drained.
    pub fn len(&self) -> (n: usize)
        ensures
            n == self@.len(),
    {
        self.queue.len()
    }

    /// Enqueue one report; it is appended after any earlier reports of the
    /// same frame.
    pub fn enqueue(&mut self, message: NextGame)
        ensures
            final(self)@ == old(self)@.push(message.result),
    {
        self.queue.push(message.result);
    }

    /// Take every waiting result, in arrival order, leaving the channel
    /// empty.
    pub fn drain(&mut self) -> (results: Vec<RoundResult>)
        ensures
            results@ == old(self)@,
            final(self)@ == Seq::<RoundResult>::empty(),
    {
        let mut out: Vec<RoundResult> = Vec::new();
        core::mem::swap(&mut out, &mut self.queue);
        out
    }
}

} // verus!
