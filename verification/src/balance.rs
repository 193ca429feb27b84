//! Tuning constants for session pacing and difficulty.

use vstd::prelude::*;

verus! {

/// Number of rounds that make up one difficulty level; `level` is the
/// integer quotient `round / ROUNDS_PER_LEVEL`.
pub const ROUNDS_PER_LEVEL: usize = 5;

/// Ceiling of the fever grade: the session is over once the cumulative
/// failure count reaches this bound.
pub const MAX_FEVER: usize = 5;

/// Number of background images a post-game screen can pick from; the
/// session-random seed is always below this bound.
pub const BACKGROUND_VARIANTS: usize = 20;

/// Fixed per-round increment added to the elapsed-time ledger, in
/// milliseconds.
pub const ROUND_DURATION_MS: u64 = 5000;

/// Length of the pre-game countdown, in milliseconds.
pub const COUNTDOWN_MS: u64 = 2000;

/// Offset after pre-game entry past which the hint overlay appears, in
/// milliseconds.
pub const HINT_DISPLAY_MS: u64 = 1000;

/// Offset after pre-game entry past which the hint overlay is torn down,
/// in milliseconds. Always later than `HINT_DISPLAY_MS`, so the hint is
/// visible for a non-empty window.
pub const HINT_DESTROY_MS: u64 = 3000;

/// The hint overlay's display window is non-empty: it appears strictly
/// before it is torn down.
pub proof fn lemma_hint_window_nonempty()
    ensures
        HINT_DISPLAY_MS < HINT_DESTROY_MS,
{
}

} // verus!
