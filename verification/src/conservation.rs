//! Conservation of faction points: in every epoch, what the factions have
//! accumulated is exactly what the winners of settled sessions wagered.

use crate::auth::AuthContext;
use crate::faction_points::FundingReport;
use crate::game::{end_game_spec, start_game_spec};
use crate::rewards::claim_epoch_reward_spec;
use crate::standings::{points_of, EpochInfoView};
use crate::storage::{DataKey, LedgerState, Record};
use crate::types::Address;
use vstd::prelude::*;

verus! {

/// One more than the largest faction or session number.
pub open spec fn id_bound() -> nat {
    0x1_0000_0000
}

/// The sum of the standings of the factions numbered below `bound`.
pub open spec fn standings_below(m: Map<u32, i128>, bound: nat) -> int
    decreases bound,
{
    if bound == 0 {
        0
    } else {
        standings_below(m, (bound - 1) as nat) + points_of(m, (bound - 1) as u32)
    }
}

/// The sum of the standings of all factions.
pub open spec fn standings_total(m: Map<u32, i128>) -> int {
    standings_below(m, id_bound())
}

/// What session `session_id` adds to the settled wagers of `epoch`: the
/// winner's wager if the session belongs to the epoch and is settled.
pub open spec fn settled_wager(s: LedgerState, epoch: u32, session_id: u32) -> int {
    match s.session(session_id) {
        Some(session) => if session.epoch_id == epoch && session.player1_won is Some {
            session.winner_wager() as int
        } else {
            0
        },
        None => 0,
    }
}

/// The sum of the winners' wagers over the settled sessions of `epoch`
/// numbered below `bound`.
pub open spec fn settled_below(s: LedgerState, epoch: u32, bound: nat) -> int
    decreases bound,
{
    if bound == 0 {
        0
    } else {
        settled_below(s, epoch, (bound - 1) as nat) + settled_wager(s, epoch, (bound - 1) as u32)
    }
}

/// The sum of the winners' wagers over all settled sessions of `epoch`.
pub open spec fn settled_total(s: LedgerState, epoch: u32) -> int {
    settled_below(s, epoch, id_bound())
}

/// The sum of the standings of all factions in `epoch`; zero for an epoch
/// without a record.
pub open spec fn epoch_total(s: LedgerState, epoch: u32) -> int {
    match s.epoch(epoch) {
        Some(info) => standings_total(info.faction_standings),
        None => 0,
    }
}

/// Whether the standings of `epoch` account for exactly the winners' wagers
/// of its settled sessions.
pub open spec fn conserved(s: LedgerState, epoch: u32) -> bool {
    settled_total(s, epoch) == epoch_total(s, epoch)
}

proof fn lemma_standings_insert(m: Map<u32, i128>, faction: u32, points: i128, bound: nat)
    requires
        bound <= id_bound(),
    ensures
        standings_below(m.insert(faction, points), bound) == standings_below(m, bound) + (if faction
            < bound {
            points - points_of(m, faction)
        } else {
            0
        }),
    decreases bound,
{
    if bound > 0 {
        lemma_standings_insert(m, faction, points, (bound - 1) as nat);
    }
}

proof fn lemma_settled_change(a: LedgerState, b: LedgerState, epoch: u32, at: u32, bound: nat)
    requires
        bound <= id_bound(),
        forall|id: u32| id != at ==> a.session(id) == b.session(id),
    ensures
        settled_below(b, epoch, bound) == settled_below(a, epoch, bound) + (if at < bound {
            settled_wager(b, epoch, at) - settled_wager(a, epoch, at)
        } else {
            0
        }),
    decreases bound,
{
    if bound > 0 {
        lemma_settled_change(a, b, epoch, at, (bound - 1) as nat);
        let id = (bound - 1) as u32;
        if id != at {
            assert(a.session(id) == b.session(id));
        }
    }
}

/// A ledger without records is conserved in every epoch.
pub proof fn lemma_empty_conserved(s: LedgerState, epoch: u32)
    requires
        s.records == Map::<DataKey, Record<EpochInfoView>>::empty(),
    ensures
        conserved(s, epoch),
{
    lemma_nothing_settled(s, epoch, id_bound());
}

proof fn lemma_nothing_settled(s: LedgerState, epoch: u32, bound: nat)
    requires
        forall|id: u32| s.session(id) is None,
    ensures
        settled_below(s, epoch, bound) == 0,
    decreases bound,
{
    if bound > 0 {
        lemma_nothing_settled(s, epoch, (bound - 1) as nat);
        assert(s.session((bound - 1) as u32) is None);
    }
}

/// Settling a session adds the winner's wager, and nothing else, to both the
/// settled wagers and the standings of the active epoch, and changes neither
/// in any other epoch. So settlement keeps every epoch conserved.
pub proof fn lemma_end_game_conserves(
    s: LedgerState,
    auth: &AuthContext,
    session_id: u32,
    player1_won: bool,
    epoch: u32,
)
    requires
        end_game_spec(s, auth, session_id, player1_won) is Ok,
    ensures
        ({
            let (after, notice) = end_game_spec(s, auth, session_id, player1_won)->Ok_0;
            let added = if epoch == s.current_epoch() {
                notice.fp_contributed as int
            } else {
                0
            };
            &&& settled_total(after, epoch) == settled_total(s, epoch) + added
            &&& epoch_total(after, epoch) == epoch_total(s, epoch) + added
            &&& conserved(s, epoch) ==> conserved(after, epoch)
        }),
{
    let (after, notice) = end_game_spec(s, auth, session_id, player1_won)->Ok_0;
    let active = s.current_epoch();
    let winner = notice.winner;
    assert forall|id: u32| id != session_id implies s.session(id) == after.session(id) by {}
    lemma_settled_change(s, after, epoch, session_id, id_bound());
    let faction = s.epoch_player(active, winner)->Some_0.epoch_faction->Some_0;
    let info = s.epoch(active)->Some_0;
    if epoch == active {
        let standing = points_of(info.faction_standings, faction)
            + notice.fp_contributed;
        lemma_standings_insert(info.faction_standings, faction, standing as i128, id_bound());
        assert(after.epoch(epoch)->Some_0.faction_standings == info.faction_standings.insert(
            faction,
            standing as i128,
        ));
    } else {
        assert(after.epoch(epoch) == s.epoch(epoch));
    }
}

/// Opening a session changes neither the settled wagers nor the standings of
/// any epoch: a pending session counts for nothing.
pub proof fn lemma_start_game_conserves(
    s: LedgerState,
    auth: &AuthContext,
    game_id: Address,
    session_id: u32,
    player1: Address,
    player2: Address,
    player1_wager: i128,
    player2_wager: i128,
    report1: FundingReport,
    report2: FundingReport,
    epoch: u32,
)
    requires
        start_game_spec(
            s,
            auth,
            game_id,
            session_id,
            player1,
            player2,
            player1_wager,
            player2_wager,
            report1,
            report2,
        ) is Ok,
    ensures
        ({
            let after = start_game_spec(
                s,
                auth,
                game_id,
                session_id,
                player1,
                player2,
                player1_wager,
                player2_wager,
                report1,
                report2,
            )->Ok_0.0;
            &&& settled_total(after, epoch) == settled_total(s, epoch)
            &&& epoch_total(after, epoch) == epoch_total(s, epoch)
            &&& conserved(s, epoch) ==> conserved(after, epoch)
        }),
{
    let after = start_game_spec(
        s,
        auth,
        game_id,
        session_id,
        player1,
        player2,
        player1_wager,
        player2_wager,
        report1,
        report2,
    )->Ok_0.0;
    assert forall|id: u32| id != session_id implies s.session(id) == after.session(id) by {}
    lemma_settled_change(s, after, epoch, session_id, id_bound());
    assert(after.epoch(epoch) == s.epoch(epoch));
}

/// Paying a reward changes neither the settled wagers nor the standings of
/// any epoch.
pub proof fn lemma_claim_conserves(
    s: LedgerState,
    auth: &AuthContext,
    user: Address,
    claimed_epoch: u32,
    epoch: u32,
)
    requires
        claim_epoch_reward_spec(s, auth, user, claimed_epoch) is Ok,
    ensures
        ({
            let after = claim_epoch_reward_spec(s, auth, user, claimed_epoch)->Ok_0.0;
            &&& settled_total(after, epoch) == settled_total(s, epoch)
            &&& epoch_total(after, epoch) == epoch_total(s, epoch)
            &&& conserved(s, epoch) ==> conserved(after, epoch)
        }),
{
    let after = claim_epoch_reward_spec(s, auth, user, claimed_epoch)->Ok_0.0;
    assert forall|id: u32| id != 0u32 implies s.session(id) == after.session(id) by {}
    assert(s.session(0u32) == after.session(0u32));
    lemma_settled_change(s, after, epoch, 0u32, id_bound());
    assert(after.epoch(epoch) == s.epoch(epoch));
}

/// Standings without entries add up to nothing.
pub proof fn lemma_empty_standings()
    ensures
        standings_total(Map::<u32, i128>::empty()) == 0,
{
    lemma_no_standings_below(id_bound());
}

proof fn lemma_no_standings_below(bound: nat)
    ensures
        standings_below(Map::<u32, i128>::empty(), bound) == 0,
    decreases bound,
{
    if bound > 0 {
        lemma_no_standings_below((bound - 1) as nat);
    }
}

/// Writing the record of an epoch keeps every epoch conserved when the
/// total of the standings written is the total the epoch had: so when an
/// epoch is opened with empty standings, and when it is finalized.
pub proof fn lemma_epoch_written_conserves(
    s: LedgerState,
    epoch: u32,
    info: EpochInfoView,
    other: u32,
)
    requires
        standings_total(info.faction_standings) == epoch_total(s, epoch),
        conserved(s, other),
    ensures
        conserved(s.put(DataKey::Epoch(epoch), Record::Epoch(info)), other),
{
    let after = s.put(DataKey::Epoch(epoch), Record::Epoch(info));
    assert forall|id: u32| id != 0u32 implies s.session(id) == after.session(id) by {}
    assert(s.session(0u32) == after.session(0u32));
    lemma_settled_change(s, after, other, 0u32, id_bound());
    if other != epoch {
        assert(after.epoch(other) == s.epoch(other));
    }
}

} // verus!
