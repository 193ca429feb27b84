//! Tests for the progression ledger: reset, result application, level
//! derivation and the fever grade.

use minigame_core::balance::{BACKGROUND_VARIANTS, MAX_FEVER, ROUNDS_PER_LEVEL};
use minigame_core::data::GameData;
use minigame_core::game::RoundResult;

#[test]
fn reset_yields_fresh_ledger() {
    let mut d = GameData::new();
    d.apply_result(RoundResult::Passed, 5000);
    d.apply_result(RoundResult::Failed, 5000);
    d.reset();
    assert_eq!(d.round, 1);
    assert_eq!(d.passed, 0);
    assert_eq!(d.failed, 0);
    assert_eq!(d.elapsed_ms, 0);
    assert_eq!(d.level, 0);
    assert!(d.random < BACKGROUND_VARIANTS);
}

#[test]
fn fresh_draws_stay_in_range() {
    for _ in 0..100 {
        let d = GameData::new();
        assert!(d.random < BACKGROUND_VARIANTS);
    }
}

#[test]
fn apply_result_updates_every_field() {
    let mut d = GameData::new();
    d.apply_result(RoundResult::Passed, 5000);
    assert_eq!(d.round, 2);
    assert_eq!(d.passed, 1);
    assert_eq!(d.failed, 0);
    assert_eq!(d.elapsed_ms, 5000);
    d.apply_result(RoundResult::Failed, 1234);
    assert_eq!(d.round, 3);
    assert_eq!(d.passed, 1);
    assert_eq!(d.failed, 1);
    assert_eq!(d.elapsed_ms, 6234);
}

#[test]
fn round_leads_counters_by_one_along_a_session() {
    let mut d = GameData::new();
    let results = [
        RoundResult::Passed,
        RoundResult::Failed,
        RoundResult::Passed,
        RoundResult::Passed,
        RoundResult::Failed,
        RoundResult::Failed,
        RoundResult::Passed,
    ];
    for r in results {
        d.apply_result(r, 5000);
        assert_eq!(d.round, d.passed + d.failed + 1);
        assert_eq!(d.level, d.round / ROUNDS_PER_LEVEL);
    }
    assert_eq!(d.round, 8);
    assert_eq!(d.passed, 4);
    assert_eq!(d.failed, 3);
    assert_eq!(d.elapsed_ms, 7 * 5000);
}

#[test]
fn level_steps_at_the_rounds_per_level_boundary() {
    let mut d = GameData::new();
    assert_eq!(d.level, 0);
    // rounds 2, 3, 4: still level 0
    d.apply_result(RoundResult::Passed, 5000);
    d.apply_result(RoundResult::Passed, 5000);
    d.apply_result(RoundResult::Passed, 5000);
    assert_eq!(d.round, 4);
    assert_eq!(d.level, 0);
    // round 5: level 1
    d.apply_result(RoundResult::Passed, 5000);
    assert_eq!(d.round, 5);
    assert_eq!(d.level, 1);
    // rounds 6..=9 stay level 1, round 10 reaches level 2
    for _ in 0..4 {
        d.apply_result(RoundResult::Passed, 5000);
        assert_eq!(d.level, 1);
    }
    d.apply_result(RoundResult::Passed, 5000);
    assert_eq!(d.round, 10);
    assert_eq!(d.level, 2);
}

#[test]
fn fever_grade_clamps_at_its_bound() {
    let mut d = GameData::new();
    assert_eq!(d.fever_grade(), 0);
    assert!(!d.dead());
    for expected in 1..=MAX_FEVER {
        d.apply_result(RoundResult::Failed, 5000);
        assert_eq!(d.fever_grade(), expected);
    }
    assert!(d.dead());
    // grade stays clamped past the bound
    d.apply_result(RoundResult::Failed, 5000);
    d.apply_result(RoundResult::Failed, 5000);
    assert_eq!(d.fever_grade(), MAX_FEVER);
    assert!(d.dead());
}

#[test]
fn fever_grade_ignores_passes() {
    let mut d = GameData::new();
    d.apply_result(RoundResult::Failed, 5000);
    d.apply_result(RoundResult::Failed, 5000);
    let grade = d.fever_grade();
    for _ in 0..10 {
        d.apply_result(RoundResult::Passed, 5000);
        assert_eq!(d.fever_grade(), grade);
    }
    assert!(!d.dead());
}

#[test]
fn dead_exactly_when_failures_reach_the_bound() {
    let mut d = GameData::new();
    for _ in 0..MAX_FEVER - 1 {
        d.apply_result(RoundResult::Failed, 5000);
        assert!(!d.dead());
    }
    d.apply_result(RoundResult::Failed, 5000);
    assert_eq!(d.failed, MAX_FEVER);
    assert!(d.dead());
}

#[test]
fn fever_grade_nominal_range_in_floating_point() {
    // the nominal grade a HUD would derive stays within [0, 1]
    let mut d = GameData::new();
    for _ in 0..MAX_FEVER + 3 {
        let nominal = d.fever_grade() as f32 / MAX_FEVER as f32;
        assert!((0.0..=1.0).contains(&nominal));
        d.apply_result(RoundResult::Failed, 5000);
    }
    assert_eq!(d.fever_grade() as f32 / MAX_FEVER as f32, 1.0);
}
