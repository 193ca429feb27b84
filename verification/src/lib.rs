//! Core of a party-style minigame session: the rotation of minigames, the
//! progression ledger that tracks rounds, passes and failures, the channel
//! through which a live minigame reports its outcome, and the sequencing
//! state machine that ties them together.
//!
//! Rendering, input and audio belong to the host engine and are out of
//! scope; this crate owns the sequencing decisions alone.

pub mod backgrounds;
pub mod balance;
pub mod channel;
pub mod data;
pub mod game;
pub mod pre_game;
pub mod registry;
pub mod sequencer;
