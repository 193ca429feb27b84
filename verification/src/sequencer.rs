//! The session state machine: owns the current game, the coarse session
//! state and the progression ledger; consumes round results and decides
//! the next intermission, or ends the session when the fever grade
//! reaches its bound.

use vstd::prelude::*;

use crate::balance::{BACKGROUND_VARIANTS, MAX_FEVER, ROUND_DURATION_MS};
use crate::channel::RoundResultChannel;
use crate::data::{apply_all, lemma_apply_all_snoc, GameData};
use crate::game::{is_minigame, next_in_rotation, next_kind, Game, LogicFault, RoundResult};
use crate::registry::{info_of, is_info_of, GameInfo};

verus! {

/// Payload carried into the intermission: the game about to start and the
/// outcome of the previous round (`None` only for the very first
/// transition of a session).
#[derive(Debug, Clone, Copy, PartialEq, Eq)]
pub struct GameTransitionInfo {
    pub next: GameInfo,
    pub last: Option<RoundResult>,
}

/// Coarse session state: inactive, in the intermission before a round, or
/// with a minigame live. Exactly one value is active at a time, and every
/// round transition passes through the intermission.
#[derive(Debug, Clone, Copy, PartialEq, Eq)]
pub enum GameState {
    Inactive,
    PreGame(GameTransitionInfo),
    Game(Game),
}

/// What one post-update step of the sequencer decided.
#[derive(Debug, Clone, Copy, PartialEq, Eq, Structural)]
pub enum StepOutcome {
    /// Nothing changed: no results were waiting, or the session was
    /// already over.
    Idle,
    /// The waiting results were applied and one intermission transition
    /// was committed.
    Scheduled,
    /// The fever grade reached its bound: the session is over. Reported
    /// exactly on the step that ends the session, never again.
    SessionEnded,
    /// A sequencing invariant was violated; nothing was changed.
    Fault(LogicFault),
}

/// The sequencing state machine, threaded by exclusive reference through
/// each per-frame step.
pub struct GameSequencer {
    /// The engine's live-game selector.
    pub game: Game,
    /// The coarse session state.
    pub state: GameState,
    /// The progression ledger.
    pub data: GameData,
    /// Latched once the fever grade reaches its bound; the sequencer then
    /// ignores further input.
    pub ended: bool,
}

impl GameSequencer {
    /// Well-formedness, preserved by every operation: the ledger
    /// invariant holds; the live-game selector agrees with the session
    /// state; an intermission always points at a playable minigame whose
    /// metadata matches the registry; and the session is ended only when
    /// inactive with the failure count at its bound.
    pub open spec fn wf(self) -> bool {
        &&& self.data.inv()
        &&& (self.state is Inactive ==> self.game == Game::Inactive)
        &&& (self.state matches GameState::PreGame(info) ==> {
            &&& self.game == Game::Pre
            &&& is_minigame(info.next.kind)
            &&& is_info_of(info.next.kind, info.next)
        })
        &&& (self.state matches GameState::Game(k) ==> self.game == k && is_minigame(k))
        &&& (self.ended ==> self.state is Inactive && self.data.failed >= MAX_FEVER)
    }

    /// A sequencer before session entry: inactive, with a fresh ledger.
    pub fn new() -> (s: GameSequencer)
        ensures
            s.wf(),
            s.state is Inactive,
            s.game == Game::Inactive,
            !s.ended,
            s.data.round == 1,
            s.data.passed == 0,
            s.data.failed == 0,
            s.data.elapsed_ms == 0,
    {
        GameSequencer {
            game: Game::Inactive,
            state: GameState::Inactive,
            data: GameData::new(),
            ended: false,
        }
    }

    /// Session entry: reset the ledger and schedule the fixed first game
    /// behind an intermission that carries no previous result.
    pub fn spawn_first(&mut self)
        ensures
            final(self).wf(),
            !final(self).ended,
            final(self).game == Game::Pre,
            final(self).state matches GameState::PreGame(info) && {
                &&& info.next.kind == Game::CatBonk
                &&& is_info_of(Game::CatBonk, info.next)
                &&& info.last is None
            },
            final(self).data.round == 1,
            final(self).data.passed == 0,
            final(self).data.failed == 0,
            final(self).data.elapsed_ms == 0,
            final(self).data.random < BACKGROUND_VARIANTS,
    {
        self.data.reset();
        let info = info_of(Game::CatBonk);
        self.state = GameState::PreGame(GameTransitionInfo { next: info, last: None });
        self.game = Game::Pre;
        self.ended = false;
    }

    /// The intermission countdown elapsed: commit the pending minigame as
    /// the live game. No failure path — when the sequencer is in an
    /// intermission this always succeeds.
    pub fn commit_pre_game(&mut self)
        requires
            old(self).wf(),
            old(self).state is PreGame,
        ensures
            final(self).wf(),
            old(self).state matches GameState::PreGame(info) ==> {
                &&& final(self).state == GameState::Game(info.next.kind)
                &&& final(self).game == info.next.kind
            },
            final(self).data == old(self).data,
            !final(self).ended,
    {
        let kind = match self.state {
            GameState::PreGame(info) => info.next.kind,
            _ => vstd::pervasive::unreached(),
        };
        self.game = kind;
        self.state = GameState::Game(kind);
    }

    /// One post-update step: drain the channel and resolve every waiting
    /// result against the same pre-batch current game, so a burst within
    /// one frame cannot cause two transitions. Every drained result
    /// updates the ledger; the last one determines the committed
    /// intermission, which targets the rotation's successor of the
    /// pre-batch current game. If the fever grade reaches its bound the
    /// session ends instead and no intermission is scheduled. A result
    /// arriving during the intermission is a sequencing fault: it is
    /// reported and nothing changes.
    pub fn on_round_results(&mut self, channel: &mut RoundResultChannel) -> (out: StepOutcome)
        requires
            old(self).wf(),
            old(self).data.round + old(channel)@.len() <= usize::MAX,
            old(self).data.elapsed_ms + old(channel)@.len() * ROUND_DURATION_MS <= u64::MAX,
        ensures
            final(self).wf(),
            old(self).ended ==> *final(self) == *old(self) && final(channel)@ == old(channel)@
                && out == StepOutcome::Idle,
            !old(self).ended && old(channel)@.len() == 0 ==> *final(self) == *old(self)
                && final(channel)@ == old(channel)@ && out == StepOutcome::Idle,
            !old(self).ended && old(channel)@.len() > 0 && old(self).game is Pre ==> *final(self)
                == *old(self) && final(channel)@ == old(channel)@ && out == StepOutcome::Fault(
                LogicFault::ResultDuringPre,
            ),
            !old(self).ended && old(channel)@.len() > 0 && old(self).game !is Pre ==> {
                &&& final(channel)@ == Seq::<RoundResult>::empty()
                &&& final(self).data == apply_all(
                    old(self).data,
                    old(channel)@,
                    ROUND_DURATION_MS,
                )
                &&& final(self).ended == (final(self).data.failed >= MAX_FEVER)
                &&& (final(self).ended ==> final(self).state is Inactive && final(self).game
                    == Game::Inactive && out == StepOutcome::SessionEnded)
                &&& (!final(self).ended ==> {
                    &&& out == StepOutcome::Scheduled
                    &&& final(self).game == Game::Pre
                    &&& final(self).state matches GameState::PreGame(info) && {
                        &&& info.next.kind == next_in_rotation(old(self).game)
                        &&& is_info_of(info.next.kind, info.next)
                        &&& info.last == Some(old(channel)@.last())
                    }
                })
            },
    {
        if self.ended {
            return StepOutcome::Idle;
        }
        if channel.len() == 0 {
            return StepOutcome::Idle;
        }
        let current = self.game;
        if current == Game::Pre {
            return StepOutcome::Fault(LogicFault::ResultDuringPre);
        }
        let results = channel.drain();
        let ghost d0 = self.data;
        let ghost game0 = self.game;
        let ghost state0 = self.state;
        let n = results.len();
        let mut i: usize = 0;
        while i < n
            invariant
                i <= n,
                n == results@.len(),
                n > 0,
                d0.inv(),
                d0.round + n <= usize::MAX,
                d0.elapsed_ms + n * ROUND_DURATION_MS <= u64::MAX,
                self.data == apply_all(d0, results@.take(i as int), ROUND_DURATION_MS),
                self.data.inv(),
                self.data.round == d0.round + i,
                self.data.elapsed_ms == d0.elapsed_ms + i * ROUND_DURATION_MS,
                self.data.random == d0.random,
                self.game == game0,
                self.state == state0,
                !self.ended,
            decreases n - i,
        {
            proof {
                assert((i + 1) * ROUND_DURATION_MS <= n * ROUND_DURATION_MS) by (nonlinear_arith)
                    requires
                        i + 1 <= n,
                ;
                assert((i + 1) * ROUND_DURATION_MS == i * ROUND_DURATION_MS + ROUND_DURATION_MS)
                    by (nonlinear_arith);
            }
            self.data.apply_result(results[i], ROUND_DURATION_MS);
            proof {
                assert(results@.take(i as int).push(results@[i as int]) =~= results@.take(
                    i as int + 1,
                ));
                lemma_apply_all_snoc(
                    d0,
                    results@.take(i as int),
                    results@[i as int],
                    ROUND_DURATION_MS,
                );
            }
            i += 1;
        }
        proof {
            assert(results@.take(n as int) =~= results@);
        }
        if self.data.dead() {
            self.ended = true;
            self.game = Game::Inactive;
            self.state = GameState::Inactive;
            StepOutcome::SessionEnded
        } else {
            let target = match next_kind(current) {
                Ok(g) => g,
                Err(_) => vstd::pervasive::unreached(),
            };
            let info = info_of(target);
            let last = results[n - 1];
            self.state = GameState::PreGame(GameTransitionInfo { next: info, last: Some(last) });
            self.game = Game::Pre;
            StepOutcome::Scheduled
        }
    }
}

} // verus!
