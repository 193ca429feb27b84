//! Minigame identities, round outcomes, and the fixed rotation table that
//! picks the next minigame from the current one.

use vstd::prelude::*;

verus! {

/// Identity of a minigame or pseudo-state. `Inactive` means no game is live
/// (session inactive); `Pre` is the intermission between rounds. The
/// remaining variants each name one playable minigame.
#[derive(Debug, Clone, Copy, PartialEq, Eq, Structural)]
pub enum Game {
    Inactive,
    Pre,
    Example,
    Duck,
    Catch,
    CatBonk,
    Popup,
    Lobster,
    Rain,
}

/// Outcome of one round, reported exactly once by the live minigame.
#[derive(Debug, Clone, Copy, PartialEq, Eq, Structural)]
pub enum RoundResult {
    Passed,
    Failed,
}

/// How a minigame is controlled, shown on the pre-game screen.
#[derive(Debug, Clone, Copy, PartialEq, Eq, Structural)]
pub enum GameControlMethod {
    Wasd,
    Mouse,
    Keyboard,
    Space,
}

/// A sequencing invariant was violated: these cases never arise when the
/// state machine is driven as designed, and are surfaced as typed errors
/// rather than panics.
#[derive(Debug, Clone, Copy, PartialEq, Eq, Structural)]
pub enum LogicFault {
    /// Metadata was requested for `Game::Inactive` or `Game::Pre`, which are
    /// not playable minigames.
    InfoOfPseudoState,
    /// A round result arrived while the live game was `Game::Pre`; only a
    /// live minigame may report a result.
    ResultDuringPre,
}

/// Message through which a minigame reports its round outcome.
#[derive(Debug, Clone, Copy, PartialEq, Eq, Structural)]
pub struct NextGame {
    pub result: RoundResult,
}

impl NextGame {
    pub fn from_result(result: RoundResult) -> (m: Self)
        ensures
            m.result == result,
    {
        NextGame { result }
    }
}

/// A playable minigame: any variant but the two pseudo-states.
pub open spec fn is_minigame(g: Game) -> bool {
    g !is Inactive && g !is Pre
}

/// The fixed rotation: which minigame follows the current one. `Pre` is
/// outside the table's domain (a result never arrives during intermission)
/// and maps to itself here; the executable lookup rejects it.
pub open spec fn next_in_rotation(g: Game) -> Game {
    match g {
        Game::Inactive => Game::CatBonk,
        Game::Pre => Game::Pre,
        Game::Example => Game::CatBonk,
        Game::Duck => Game::Example,
        Game::Catch => Game::CatBonk,
        Game::CatBonk => Game::Popup,
        Game::Popup => Game::Lobster,
        Game::Lobster => Game::Rain,
        Game::Rain => Game::CatBonk,
    }
}

/// Look up the minigame that follows `current` in the fixed rotation.
/// A pure table lookup: the result is a function of `current` alone.
/// `Game::Pre` as the current game is a sequencing fault and is rejected.
pub fn next_kind(current: Game) -> (r: Result<Game, LogicFault>)
    ensures
        r is Err <==> current is Pre,
        current is Pre ==> r == Err::<Game, LogicFault>(LogicFault::ResultDuringPre),
        current !is Pre ==> r == Ok::<Game, LogicFault>(next_in_rotation(current)),
        r matches Ok(g) ==> is_minigame(g),
{
    match current {
        Game::Inactive => Ok(Game::CatBonk),
        Game::Pre => Err(LogicFault::ResultDuringPre),
        Game::Example => Ok(Game::CatBonk),
        Game::Duck => Ok(Game::Example),
        Game::Catch => Ok(Game::CatBonk),
        Game::CatBonk => Ok(Game::Popup),
        Game::Popup => Ok(Game::Lobster),
        Game::Lobster => Ok(Game::Rain),
        Game::Rain => Ok(Game::CatBonk),
    }
}

} // verus!
