//! The intermission between rounds: it shows the upcoming game's hint and
//! control method, and runs a fixed countdown against the engine's
//! monotonic clock before the sequencer commits the pending game.

use vstd::prelude::*;

use crate::balance::{COUNTDOWN_MS, HINT_DESTROY_MS, HINT_DISPLAY_MS};
use crate::registry::GameInfo;

verus! {

/// State of the current intermission: when it was entered, against the
/// engine's monotonic clock, and the metadata of the game about to start.
#[derive(Debug, Clone, Copy, PartialEq, Eq)]
pub struct PreGameState {
    /// Engine time at intermission entry, in milliseconds.
    pub start_ms: u64,
    /// Metadata of the upcoming game.
    pub info: GameInfo,
}

impl PreGameState {
    /// An intermission entered at `start_ms` showing `info`.
    pub fn new(start_ms: u64, info: GameInfo) -> (s: PreGameState)
        ensures
            s.start_ms == start_ms,
            s.info == info,
    {
        PreGameState { start_ms, info }
    }

    /// Called on entering the intermission to point it at the upcoming
    /// game and restart its clock.
    pub fn reset(&mut self, start_ms: u64, info: GameInfo)
        ensures
            final(self).start_ms == start_ms,
            final(self).info == info,
    {
        self.start_ms = start_ms;
        self.info = info;
    }

    /// Whether the fixed countdown has elapsed at `now_ms`. The clock is
    /// monotonic, so `now_ms` never precedes the entry time. Once true it
    /// stays true: the countdown is a plain wall-clock comparison, never
    /// reset by pausing.
    pub fn countdown_done(&self, now_ms: u64) -> (b: bool)
        requires
            now_ms >= self.start_ms,
        ensures
            b == (now_ms - self.start_ms > COUNTDOWN_MS),
    {
        now_ms - self.start_ms > COUNTDOWN_MS
    }

    /// Whether the transient hint overlay is up at `now_ms`: it appears
    /// once a fixed offset after entry has passed and is torn down once a
    /// second, later offset has.
    pub fn hint_visible(&self, now_ms: u64) -> (b: bool)
        requires
            now_ms >= self.start_ms,
        ensures
            b == (now_ms - self.start_ms > HINT_DISPLAY_MS && now_ms - self.start_ms
                <= HINT_DESTROY_MS),
    {
        let since = now_ms - self.start_ms;
        since > HINT_DISPLAY_MS && since <= HINT_DESTROY_MS
    }
}

} // verus!
