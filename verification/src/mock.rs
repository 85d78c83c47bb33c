//! A stand-in for the platform, for exercising a game contract on its own.

use crate::types::Address;
use vstd::prelude::*;

verus! {

/// A platform that accepts every call and keeps nothing: no session is
/// recorded, no wager locked, no game listed.
#[derive(Clone, Copy, Debug, PartialEq, Eq, Structural)]
pub struct MockBlendizzard;

impl MockBlendizzard {
    /// Accepts the opening of a session; nothing is recorded.
    pub fn start_game(
        &self,
        _game_id: &Address,
        _session_id: u32,
        _player1: &Address,
        _player2: &Address,
        _player1_wager: i128,
        _player2_wager: i128,
    ) {
    }

    /// Accepts the settlement of a session; nothing is recorded.
    pub fn end_game(&self, _game_id: &Address, _session_id: u32, _proof: &Vec<u8>, _player1_won: bool) {
    }

    /// Accepts the listing of a game; nothing is recorded.
    pub fn add_game(&self, _game_address: &Address) {
    }
}

} // verus!
