//! Deterministic pick of a background image slot from a session-varying
//! index: the post-game screen feeds it the session seed, the intermission
//! the seed offset by the round.

use vstd::prelude::*;

verus! {

/// Number of background images shipped with the game.
pub const BACKGROUND_COUNT: usize = 3;

/// Which of the background images a given index selects: indices wrap
/// around, so every value picks a valid slot.
pub fn background_slot(index: usize) -> (slot: usize)
    ensures
        slot == index as int % BACKGROUND_COUNT as int,
        slot < BACKGROUND_COUNT,
{
    index % BACKGROUND_COUNT
}

} // verus!
