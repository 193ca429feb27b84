//! The progression ledger: rounds, pass/fail counters, elapsed time,
//! derived difficulty level, and the fever grade that ends the session.

use vstd::prelude::*;

use crate::balance::{BACKGROUND_VARIANTS, MAX_FEVER, ROUNDS_PER_LEVEL};
use crate::game::RoundResult;

verus! {

/// Progression ledger for one session. `round` starts at 1 and grows by
/// one per applied result; `level` is always `round / ROUNDS_PER_LEVEL`;
/// `random` is the session-random background seed, drawn once at reset.
#[derive(Debug, Clone, Copy, PartialEq, Eq, Structural)]
pub struct GameData {
    pub round: usize,
    pub elapsed_ms: u64,
    pub passed: usize,
    pub failed: usize,
    pub level: usize,
    pub random: usize,
}

/// The fever grade: the cumulative failure count, clamped at `MAX_FEVER`.
/// It depends on the failure count alone.
pub open spec fn fever_grade_of(failed: nat) -> nat {
    if failed >= MAX_FEVER {
        MAX_FEVER as nat
    } else {
        failed
    }
}

/// One application of a round result to the ledger, as a mathematical
/// step function. The casts truncate only when a counter would leave its
/// type's range, which `GameData::apply_result` forbids.
pub open spec fn spec_apply_result(d: GameData, result: RoundResult, delta_ms: u64) -> GameData {
    GameData {
        round: (d.round + 1) as usize,
        elapsed_ms: (d.elapsed_ms + delta_ms) as u64,
        passed: if result is Passed {
            (d.passed + 1) as usize
        } else {
            d.passed
        },
        failed: if result is Failed {
            (d.failed + 1) as usize
        } else {
            d.failed
        },
        level: (((d.round + 1) as usize) as int / ROUNDS_PER_LEVEL as int) as usize,
        random: d.random,
    }
}

/// Fold of `spec_apply_result` over a whole sequence of round results,
/// each charged the same per-round time increment.
pub open spec fn apply_all(d: GameData, results: Seq<RoundResult>, delta_ms: u64) -> GameData
    decreases results.len(),
{
    if results.len() == 0 {
        d
    } else {
        apply_all(spec_apply_result(d, results[0], delta_ms), results.drop_first(), delta_ms)
    }
}

/// Relies on rand::random_range: a sample within the given range, drawn
/// from the thread-local generator. The range `0..BACKGROUND_VARIANTS` is
/// never empty, so the call does not panic.
#[verifier::external_body]
fn draw_background_index() -> (r: usize)
    ensures
        r < BACKGROUND_VARIANTS,
{
    rand::random_range(0..BACKGROUND_VARIANTS)
}

impl GameData {
    /// Well-formedness: the round counter leads the outcome counters by
    /// exactly one, the level is derived from the round by integer
    /// division, and the background seed is within its bound.
    pub open spec fn inv(self) -> bool {
        &&& self.round == self.passed + self.failed + 1
        &&& self.level as int == self.round as int / ROUNDS_PER_LEVEL as int
        &&& self.random < BACKGROUND_VARIANTS
    }

    /// A fresh ledger: counters zeroed, round 1, no elapsed time, and a
    /// newly drawn background seed.
    pub fn new() -> (d: GameData)
        ensures
            d.inv(),
            d.round == 1,
            d.passed == 0,
            d.failed == 0,
            d.elapsed_ms == 0,
            d.level == 0,
            d.random < BACKGROUND_VARIANTS,
    {
        GameData {
            round: 1,
            elapsed_ms: 0,
            passed: 0,
            failed: 0,
            level: 1 / ROUNDS_PER_LEVEL,
            random: draw_background_index(),
        }
    }

    /// Reset at session start: zero the counters, set round 1, clear the
    /// elapsed time and draw a fresh background seed.
    pub fn reset(&mut self)
        ensures
            final(self).inv(),
            final(self).round == 1,
            final(self).passed == 0,
            final(self).failed == 0,
            final(self).elapsed_ms == 0,
            final(self).level == 0,
            final(self).random < BACKGROUND_VARIANTS,
    {
        *self = GameData::new();
    }

    /// Apply one round result: advance the round, credit the matching
    /// counter, add the time spent and re-derive the level. The
    /// background seed is untouched. Always succeeds on a well-formed
    /// ledger whose counters have room to grow.
    pub fn apply_result(&mut self, result: RoundResult, delta_ms: u64)
        requires
            old(self).inv(),
            old(self).round < usize::MAX,
            old(self).elapsed_ms + delta_ms <= u64::MAX,
        ensures
            *final(self) == spec_apply_result(*old(self), result, delta_ms),
            final(self).inv(),
            final(self).round == old(self).round + 1,
            final(self).passed == old(self).passed + (if result is Passed { 1int } else { 0 }),
            final(self).failed == old(self).failed + (if result is Failed { 1int } else { 0 }),
            final(self).elapsed_ms == old(self).elapsed_ms + delta_ms,
            final(self).level as int == final(self).round as int / ROUNDS_PER_LEVEL as int,
            final(self).random == old(self).random,
    {
        self.round = self.round + 1;
        match result {
            RoundResult::Passed => {
                self.passed = self.passed + 1;
            },
            RoundResult::Failed => {
                self.failed = self.failed + 1;
            },
        }
        self.elapsed_ms = self.elapsed_ms + delta_ms;
        self.level = self.round / ROUNDS_PER_LEVEL;
    }

    /// The fever grade as a number: `failed` clamped at `MAX_FEVER`.
    pub fn fever_grade(&self) -> (g: usize)
        ensures
            g == fever_grade_of(self.failed as nat),
    {
        if self.failed >= MAX_FEVER {
            MAX_FEVER
        } else {
            self.failed
        }
    }

    /// The session is over exactly when the fever grade has reached its
    /// bound, that is, when the failure count has.
    pub fn dead(&self) -> (b: bool)
        ensures
            b <==> self.failed >= MAX_FEVER,
            b <==> fever_grade_of(self.failed as nat) >= MAX_FEVER,
    {
        self.failed >= MAX_FEVER
    }
}

/// The fever grade is monotonically non-decreasing in the failure count,
/// never exceeds its clamp bound, and reaches the bound exactly when the
/// failure count does.
pub proof fn lemma_fever_grade_monotone(f1: nat, f2: nat)
    requires
        f1 <= f2,
    ensures
        fever_grade_of(f1) <= fever_grade_of(f2),
        fever_grade_of(f1) <= MAX_FEVER,
        fever_grade_of(f1) >= MAX_FEVER <==> f1 >= MAX_FEVER,
{
}

/// The fever grade is independent of the pass count: two ledgers with the
/// same failure count share the same grade, whatever else differs.
pub proof fn lemma_fever_grade_ignores_passes(a: GameData, b: GameData)
    requires
        a.failed == b.failed,
    ensures
        fever_grade_of(a.failed as nat) == fever_grade_of(b.failed as nat),
{
}

/// Folding one more result onto the ledger equals applying it to the fold
/// of the earlier ones.
pub proof fn lemma_apply_all_snoc(d: GameData, results: Seq<RoundResult>, r: RoundResult, delta_ms: u64)
    ensures
        apply_all(d, results.push(r), delta_ms) == spec_apply_result(
            apply_all(d, results, delta_ms),
            r,
            delta_ms,
        ),
    decreases results.len(),
{
    let s = results.push(r);
    if results.len() == 0 {
        assert(s[0] == r);
        assert(s.drop_first() =~= Seq::<RoundResult>::empty());
        assert(apply_all(d, s, delta_ms) == apply_all(
            spec_apply_result(d, r, delta_ms),
            s.drop_first(),
            delta_ms,
        ));
        assert(apply_all(spec_apply_result(d, r, delta_ms), s.drop_first(), delta_ms)
            == spec_apply_result(d, r, delta_ms));
        assert(apply_all(d, results, delta_ms) == d);
    } else {
        assert(s[0] == results[0]);
        assert(s.drop_first() =~= results.drop_first().push(r));
        lemma_apply_all_snoc(spec_apply_result(d, results[0], delta_ms), results.drop_first(), r, delta_ms);
        assert(apply_all(d, s, delta_ms) == apply_all(
            spec_apply_result(d, s[0], delta_ms),
            s.drop_first(),
            delta_ms,
        ));
        assert(apply_all(d, results, delta_ms) == apply_all(
            spec_apply_result(d, results[0], delta_ms),
            results.drop_first(),
            delta_ms,
        ));
    }
}

/// Ledger law: from any well-formed ledger with room to grow, applying any
/// sequence of round results keeps the invariant — after each call `round`
/// equals `passed + failed + 1` and `level` equals `round / ROUNDS_PER_LEVEL`
/// — while the counters advance by exactly the results applied and the
/// failure count never decreases.
pub proof fn lemma_apply_all_ledger(d: GameData, results: Seq<RoundResult>, delta_ms: u64)
    requires
        d.inv(),
        d.round + results.len() <= usize::MAX,
        d.elapsed_ms + results.len() * delta_ms <= u64::MAX,
    ensures
        apply_all(d, results, delta_ms).inv(),
        apply_all(d, results, delta_ms).round == d.round + results.len(),
        apply_all(d, results, delta_ms).passed + apply_all(d, results, delta_ms).failed == d.passed
            + d.failed + results.len(),
        apply_all(d, results, delta_ms).passed >= d.passed,
        apply_all(d, results, delta_ms).failed >= d.failed,
        apply_all(d, results, delta_ms).elapsed_ms == d.elapsed_ms + results.len() * delta_ms,
        apply_all(d, results, delta_ms).random == d.random,
    decreases results.len(),
{
    if results.len() > 0 {
        let d1 = spec_apply_result(d, results[0], delta_ms);
        assert(results.len() * delta_ms == delta_ms + (results.len() - 1) * delta_ms)
            by (nonlinear_arith);
        lemma_apply_all_ledger(d1, results.drop_first(), delta_ms);
    }
}

} // verus!
