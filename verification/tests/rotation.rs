//! Tests for the rotation table and the metadata registry.

use minigame_core::backgrounds::{background_slot, BACKGROUND_COUNT};
use minigame_core::game::{Game, GameControlMethod, LogicFault, next_kind};
use minigame_core::registry::{color_channels, get_info};

#[test]
fn rotation_table_matches_the_fixed_sequence() {
    assert_eq!(next_kind(Game::Inactive), Ok(Game::CatBonk));
    assert_eq!(next_kind(Game::Example), Ok(Game::CatBonk));
    assert_eq!(next_kind(Game::Duck), Ok(Game::Example));
    assert_eq!(next_kind(Game::Catch), Ok(Game::CatBonk));
    assert_eq!(next_kind(Game::CatBonk), Ok(Game::Popup));
    assert_eq!(next_kind(Game::Popup), Ok(Game::Lobster));
    assert_eq!(next_kind(Game::Lobster), Ok(Game::Rain));
    assert_eq!(next_kind(Game::Rain), Ok(Game::CatBonk));
}

#[test]
fn rotation_rejects_the_intermission_as_current() {
    assert_eq!(next_kind(Game::Pre), Err(LogicFault::ResultDuringPre));
}

#[test]
fn rotation_is_repeatable() {
    let games = [
        Game::Inactive,
        Game::Example,
        Game::Duck,
        Game::Catch,
        Game::CatBonk,
        Game::Popup,
        Game::Lobster,
        Game::Rain,
    ];
    for g in games {
        let first = next_kind(g);
        for _ in 0..5 {
            assert_eq!(next_kind(g), first);
        }
    }
}

#[test]
fn registry_metadata_per_game() {
    let bonk = get_info(Game::CatBonk).unwrap();
    assert_eq!(bonk.kind, Game::CatBonk);
    assert_eq!(bonk.controls, GameControlMethod::Mouse);
    assert_eq!(bonk.hint, "Bonk");
    assert_eq!(bonk.color, 0x279CD8FF);

    let popup = get_info(Game::Popup).unwrap();
    assert_eq!(popup.controls, GameControlMethod::Mouse);
    assert_eq!(popup.hint, "Close");
    assert_eq!(popup.color, 0x5555FFFF);

    let lobster = get_info(Game::Lobster).unwrap();
    assert_eq!(lobster.controls, GameControlMethod::Keyboard);
    assert_eq!(lobster.hint, "Grab");

    let catch = get_info(Game::Catch).unwrap();
    assert_eq!(catch.controls, GameControlMethod::Wasd);
    assert_eq!(catch.hint, "Catch");

    let example = get_info(Game::Example).unwrap();
    assert_eq!(example.hint, "Go");

    let duck = get_info(Game::Duck).unwrap();
    assert_eq!(duck.controls, GameControlMethod::Wasd);

    let rain = get_info(Game::Rain).unwrap();
    assert_eq!(rain.hint, "Shelter");
    assert_eq!(rain.color, 0xFFFFFFFF);
}

#[test]
fn color_channels_split_packed_rgba() {
    assert_eq!(color_channels(0x279CD8FF), (0x27, 0x9C, 0xD8, 0xFF));
    assert_eq!(color_channels(0xFFFFFFFF), (0xFF, 0xFF, 0xFF, 0xFF));
    assert_eq!(color_channels(0x00000000), (0, 0, 0, 0));
    assert_eq!(color_channels(0x01020304), (1, 2, 3, 4));
}

#[test]
fn background_slot_wraps_around() {
    for i in 0..BACKGROUND_COUNT {
        assert_eq!(background_slot(i), i);
    }
    assert_eq!(background_slot(BACKGROUND_COUNT), 0);
    assert_eq!(background_slot(22), 22 % BACKGROUND_COUNT);
}

#[test]
fn registry_rejects_pseudo_states() {
    assert_eq!(get_info(Game::Inactive), Err(LogicFault::InfoOfPseudoState));
    assert_eq!(get_info(Game::Pre), Err(LogicFault::InfoOfPseudoState));
}
