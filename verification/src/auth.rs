//! What the parties to an invocation have authorized.

use crate::types::Address;
use vstd::prelude::*;

verus! {

/// One authorization carried by an invocation.
#[derive(Clone, Copy, Debug, PartialEq, Eq, Structural)]
pub enum Authorization {
    /// `signer` authorized the invocation as a whole.
    Invocation { signer: Address },
    /// `signer` authorized exactly this wager in this session of this game.
    Wager { signer: Address, game_id: Address, session_id: u32, wager: i128 },
}

/// The authorizations that accompany one invocation.
#[derive(Debug)]
pub struct AuthContext {
    pub grants: Vec<Authorization>,
}

impl AuthContext {
    /// Whether the invocation carries `grant`.
    pub open spec fn allows(&self, grant: Authorization) -> bool {
        self.grants@.contains(grant)
    }

    /// Whether `signer` authorized the invocation as a whole.
    pub open spec fn invoked_by(&self, signer: Address) -> bool {
        self.allows(Authorization::Invocation { signer })
    }

    /// Whether `signer` authorized wagering `wager` in session `session_id`
    /// of game `game_id`.
    pub open spec fn wagered_by(
        &self,
        signer: Address,
        game_id: Address,
        session_id: u32,
        wager: i128,
    ) -> bool {
        self.allows(Authorization::Wager { signer, game_id, session_id, wager })
    }

    /// An invocation that nobody authorized.
    pub fn new() -> (r: Self)
        ensures
            r.grants@ == Seq::<Authorization>::empty(),
    {
        AuthContext { grants: Vec::new() }
    }

    /// Adds an authorization to the invocation.
    pub fn grant(&mut self, grant: Authorization)
        ensures
            final(self).grants@ == old(self).grants@.push(grant),
    {
        self.grants.push(grant);
    }

    /// Tests whether the invocation carries `grant`.
    pub fn has(&self, grant: &Authorization) -> (r: bool)
        ensures
            r == self.allows(*grant),
    {
        let mut i: usize = 0;
        while i < self.grants.len()
            invariant
                i <= self.grants@.len(),
                forall|k: int| 0 <= k < i ==> self.grants@[k] != *grant,
            decreases self.grants@.len() - i,
        {
            if self.grants[i] == *grant {
                return true;
            }
            i += 1;
        }
        false
    }

    /// Tests whether `signer` authorized the invocation as a whole.
    pub fn require_auth(&self, signer: &Address) -> (r: bool)
        ensures
            r == self.invoked_by(*signer),
    {
        self.has(&Authorization::Invocation { signer: *signer })
    }

    /// Tests whether `signer` authorized exactly this wager.
    pub fn require_auth_for_wager(
        &self,
        signer: &Address,
        game_id: &Address,
        session_id: u32,
        wager: i128,
    ) -> (r: bool)
        ensures
            r == self.wagered_by(*signer, *game_id, session_id, wager),
    {
        self.has(
            &Authorization::Wager { signer: *signer, game_id: *game_id, session_id, wager },
        )
    }
}

} // verus!
