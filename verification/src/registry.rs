//! Static metadata for each playable minigame: control method, hint text
//! and display color, looked up by game identity.

use vstd::prelude::*;

use crate::game::{Game, GameControlMethod, LogicFault, is_minigame};

verus! {

/// Static metadata for one minigame. Created by the registry lookup and
/// never mutated.
#[derive(Debug, Clone, Copy, PartialEq, Eq)]
pub struct GameInfo {
    pub kind: Game,
    pub controls: GameControlMethod,
    pub hint: &'static str,
    pub color: u32,
}

/// Control method of each playable minigame; arbitrary on the two
/// pseudo-states, which the lookup rejects.
pub open spec fn controls_of(g: Game) -> GameControlMethod {
    match g {
        Game::CatBonk => GameControlMethod::Mouse,
        Game::Popup => GameControlMethod::Mouse,
        Game::Lobster => GameControlMethod::Keyboard,
        _ => GameControlMethod::Wasd,
    }
}

/// Hint text of each playable minigame; arbitrary on the two
/// pseudo-states, which the lookup rejects.
pub open spec fn hint_of(g: Game) -> Seq<char> {
    match g {
        Game::Example => "Go"@,
        Game::Duck => "Run"@,
        Game::Catch => "Catch"@,
        Game::CatBonk => "Bonk"@,
        Game::Popup => "Close"@,
        Game::Lobster => "Grab"@,
        Game::Rain => "Shelter"@,
        _ => ""@,
    }
}

/// Display color (RGBA, one byte per channel) of each playable minigame;
/// arbitrary on the two pseudo-states, which the lookup rejects.
pub open spec fn color_of(g: Game) -> u32 {
    match g {
        Game::CatBonk => 0x279CD8FF,
        Game::Popup => 0x5555FFFF,
        _ => 0xFFFFFFFF,
    }
}

/// The metadata of `g` as the registry hands it out.
pub open spec fn is_info_of(g: Game, info: GameInfo) -> bool {
    &&& info.kind == g
    &&& info.controls == controls_of(g)
    &&& info.hint@ == hint_of(g)
    &&& info.color == color_of(g)
}

/// Registry lookup for a playable minigame. Pure and total over the
/// playable variants; `requires` keeps the two pseudo-states out, which
/// the fallible `get_info` reports as a typed fault instead.
pub fn info_of(kind: Game) -> (info: GameInfo)
    requires
        is_minigame(kind),
    ensures
        is_info_of(kind, info),
{
    match kind {
        Game::Example => GameInfo {
            kind,
            controls: GameControlMethod::Wasd,
            hint: "Go",
            color: 0xFFFFFFFF,
        },
        Game::Duck => GameInfo {
            kind,
            controls: GameControlMethod::Wasd,
            hint: "Run",
            color: 0xFFFFFFFF,
        },
        Game::Catch => GameInfo {
            kind,
            controls: GameControlMethod::Wasd,
            hint: "Catch",
            color: 0xFFFFFFFF,
        },
        Game::CatBonk => GameInfo {
            kind,
            controls: GameControlMethod::Mouse,
            hint: "Bonk",
            color: 0x279CD8FF,
        },
        Game::Popup => GameInfo {
            kind,
            controls: GameControlMethod::Mouse,
            hint: "Close",
            color: 0x5555FFFF,
        },
        Game::Lobster => GameInfo {
            kind,
            controls: GameControlMethod::Keyboard,
            hint: "Grab",
            color: 0xFFFFFFFF,
        },
        Game::Rain => GameInfo {
            kind,
            controls: GameControlMethod::Wasd,
            hint: "Shelter",
            color: 0xFFFFFFFF,
        },
        _ => GameInfo {
            kind,
            controls: GameControlMethod::Wasd,
            hint: "",
            color: 0xFFFFFFFF,
        },
    }
}

/// Split a packed RGBA color (one byte per channel, red in the top byte)
/// into its four channels, for a renderer to scale as it likes.
pub fn color_channels(value: u32) -> (c: (u8, u8, u8, u8))
    ensures
        c.0 == (value >> 24) & 0xFF,
        c.1 == (value >> 16) & 0xFF,
        c.2 == (value >> 8) & 0xFF,
        c.3 == value & 0xFF,
{
    proof {
        assert((value >> 24) & 0xFF < 256 && (value >> 16) & 0xFF < 256 && (value >> 8) & 0xFF
            < 256 && value & 0xFF < 256) by (bit_vector);
    }
    (
        ((value >> 24) & 0xFF) as u8,
        ((value >> 16) & 0xFF) as u8,
        ((value >> 8) & 0xFF) as u8,
        (value & 0xFF) as u8,
    )
}

/// Registry lookup over every game identity: metadata for a playable
/// minigame, a typed fault for the two pseudo-states.
pub fn get_info(kind: Game) -> (r: Result<GameInfo, LogicFault>)
    ensures
        r is Err <==> !is_minigame(kind),
        !is_minigame(kind) ==> r == Err::<GameInfo, LogicFault>(LogicFault::InfoOfPseudoState),
        r matches Ok(info) ==> is_info_of(kind, info),
{
    match kind {
        Game::Inactive => Err(LogicFault::InfoOfPseudoState),
        Game::Pre => Err(LogicFault::InfoOfPseudoState),
        _ => Ok(info_of(kind)),
    }
}

} // verus!
