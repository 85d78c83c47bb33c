//! Backing of the rewards: what the contributors of a faction have
//! contributed never exceeds the faction's standing, so the claims against
//! an epoch never exceed its pool.

use crate::auth::AuthContext;
use crate::faction_points::FundingReport;
use crate::game::{end_game_spec, start_game_spec};
use crate::rewards::{claim_epoch_reward_spec, claimable_amount, lemma_payout_bounded, reward_due};
use crate::standings::{points_of, EpochInfoView};
use crate::storage::{DataKey, LedgerState, Record};
use crate::types::{Address, EpochPlayer};
use vstd::prelude::*;

verus! {

/// What `user` has contributed to `faction` in `epoch`: the contribution on
/// record if that is the user's faction for the epoch, else nothing.
pub open spec fn contribution_to(s: LedgerState, epoch: u32, user: Address, faction: u32) -> int {
    match s.epoch_player(epoch, user) {
        Some(record) => if record.epoch_faction == Some(faction) {
            record.total_fp_contributed as int
        } else {
            0
        },
        None => 0,
    }
}

/// The sum of what `users` have contributed to `faction` in `epoch`.
pub open spec fn contributions_of(
    s: LedgerState,
    epoch: u32,
    users: Seq<Address>,
    faction: u32,
) -> int
    decreases users.len(),
{
    if users.len() == 0 {
        0
    } else {
        contributions_of(s, epoch, users.drop_last(), faction) + contribution_to(
            s,
            epoch,
            users.last(),
            faction,
        )
    }
}

/// The standing of `faction` in `epoch`; zero without an entry.
pub open spec fn standing_of(s: LedgerState, epoch: u32, faction: u32) -> int {
    match s.epoch(epoch) {
        Some(info) => points_of(info.faction_standings, faction),
        None => 0,
    }
}

/// Whether a record, if there is one, holds a contribution that is not
/// negative, and none at all without a faction.
pub open spec fn record_sound(record: Option<EpochPlayer>) -> bool {
    match record {
        Some(record) => record.total_fp_contributed >= 0 && (record.epoch_faction is None
            ==> record.total_fp_contributed == 0),
        None => true,
    }
}

/// Whether every record of `epoch` is sound.
pub open spec fn contributions_sound(s: LedgerState, epoch: u32) -> bool {
    forall|user: Address| record_sound(#[trigger] s.epoch_player(epoch, user))
}

/// Whether the standings of `epoch` back the contributions: those of any
/// group of distinct users to a faction add up to no more than the faction's
/// standing.
pub open spec fn backed(s: LedgerState, epoch: u32) -> bool {
    &&& contributions_sound(s, epoch)
    &&& forall|users: Seq<Address>, faction: u32|
        users.no_duplicates() ==> #[trigger] contributions_of(s, epoch, users, faction)
            <= standing_of(s, epoch, faction)
}

/// Whether every session on record has strictly positive wagers.
pub open spec fn wagers_positive(s: LedgerState) -> bool {
    forall|session_id: u32|
        match #[trigger] s.session(session_id) {
            Some(session) => session.player1_wager > 0 && session.player2_wager > 0,
            None => true,
        }
}

/// The sum of what claims by `users` for `epoch` would pay.
pub open spec fn claims_sum(s: LedgerState, users: Seq<Address>, epoch: u32) -> int
    decreases users.len(),
{
    if users.len() == 0 {
        0
    } else {
        claims_sum(s, users.drop_last(), epoch) + claimable_amount(s, users.last(), epoch)
    }
}

proof fn lemma_contributions_change(
    a: LedgerState,
    b: LedgerState,
    epoch: u32,
    users: Seq<Address>,
    faction: u32,
    who: Address,
    delta: int,
)
    requires
        users.no_duplicates(),
        forall|u: Address|
            u != who ==> contribution_to(b, epoch, u, faction) == contribution_to(
                a,
                epoch,
                u,
                faction,
            ),
        contribution_to(b, epoch, who, faction) == contribution_to(a, epoch, who, faction) + delta,
    ensures
        contributions_of(b, epoch, users, faction) == contributions_of(a, epoch, users, faction)
            + (if users.contains(who) {
            delta
        } else {
            0
        }),
    decreases users.len(),
{
    if users.len() > 0 {
        let rest = users.drop_last();
        let last = users.last();
        assert(rest.no_duplicates());
        lemma_contributions_change(a, b, epoch, rest, faction, who, delta);
        if last == who {
            assert(!rest.contains(who)) by {
                if rest.contains(who) {
                    let i = choose|i: int| 0 <= i < rest.len() && rest[i] == who;
                    assert(users[i] == who);
                    assert(users[users.len() - 1] == who);
                }
            }
            assert(users.contains(who));
        } else {
            if rest.contains(who) {
                let i = choose|i: int| 0 <= i < rest.len() && rest[i] == who;
                assert(users[i] == who);
            }
            if users.contains(who) {
                let i = choose|i: int| 0 <= i < users.len() && users[i] == who;
                assert(rest[i] == who);
            }
        }
    }
}

proof fn lemma_single_contribution(s: LedgerState, epoch: u32, user: Address, faction: u32)
    ensures
        seq![user].no_duplicates(),
        contributions_of(s, epoch, seq![user], faction) == contribution_to(
            s,
            epoch,
            user,
            faction,
        ),
{
    let one = seq![user];
    assert(one.drop_last() =~= Seq::<Address>::empty());
    assert(one.last() == user);
    assert(contributions_of(s, epoch, one.drop_last(), faction) == 0);
}

/// A ledger without records is backed in every epoch and holds no session.
pub proof fn lemma_empty_backed(s: LedgerState, epoch: u32)
    requires
        s.records == Map::<DataKey, Record<EpochInfoView>>::empty(),
    ensures
        backed(s, epoch),
        wagers_positive(s),
{
    assert forall|users: Seq<Address>, faction: u32| users.no_duplicates() implies contributions_of(
        s,
        epoch,
        users,
        faction,
    ) <= standing_of(s, epoch, faction) by {
        lemma_no_contributions(s, epoch, users, faction);
    }
}

proof fn lemma_no_contributions(s: LedgerState, epoch: u32, users: Seq<Address>, faction: u32)
    requires
        forall|u: Address| contribution_to(s, epoch, u, faction) == 0,
    ensures
        contributions_of(s, epoch, users, faction) == 0,
    decreases users.len(),
{
    if users.len() > 0 {
        lemma_no_contributions(s, epoch, users.drop_last(), faction);
    }
}

proof fn lemma_wagers_kept(a: LedgerState, b: LedgerState, at: u32)
    requires
        wagers_positive(a),
        forall|id: u32| id != at ==> #[trigger] b.session(id) == a.session(id),
        match b.session(at) {
            Some(session) => session.player1_wager > 0 && session.player2_wager > 0,
            None => true,
        },
    ensures
        wagers_positive(b),
{
    assert forall|id: u32| true implies match #[trigger] b.session(id) {
        Some(session) => session.player1_wager > 0 && session.player2_wager > 0,
        None => true,
    } by {
        if id != at {
            assert(b.session(id) == a.session(id));
        }
    }
}

/// A step that adds `delta` to what `who` has contributed to the faction
/// `raised`, changes no other contribution, and raises that faction's
/// standing by at least as much, keeps the epoch backed.
proof fn lemma_backing_kept(
    a: LedgerState,
    b: LedgerState,
    epoch: u32,
    who: Address,
    raised: u32,
    delta: int,
)
    requires
        backed(a, epoch),
        contributions_sound(b, epoch),
        forall|u: Address, f: u32|
            #[trigger] contribution_to(b, epoch, u, f) == contribution_to(a, epoch, u, f) + (if u
                == who && f == raised {
                delta
            } else {
                0
            }),
        forall|f: u32|
            standing_of(a, epoch, f) + (if f == raised {
                delta
            } else {
                0
            }) <= #[trigger] standing_of(b, epoch, f),
        delta >= 0,
    ensures
        backed(b, epoch),
{
    assert forall|users: Seq<Address>, faction: u32| users.no_duplicates() implies contributions_of(
        b,
        epoch,
        users,
        faction,
    ) <= standing_of(b, epoch, faction) by {
        let change = if faction == raised {
            delta
        } else {
            0
        };
        assert forall|u: Address| u != who implies contribution_to(b, epoch, u, faction)
            == contribution_to(a, epoch, u, faction) by {}
        assert(contribution_to(b, epoch, who, faction) == contribution_to(a, epoch, who, faction)
            + change);
        lemma_contributions_change(a, b, epoch, users, faction, who, change);
        assert(contributions_of(a, epoch, users, faction) <= standing_of(a, epoch, faction));
        assert(standing_of(a, epoch, faction) + change <= standing_of(b, epoch, faction));
    }
}

/// Settling a session with positive wagers keeps every epoch backed: the
/// winner's wager goes to the winner's contribution and to the standing of
/// the winner's faction alike.
pub proof fn lemma_end_game_keeps_backed(
    s: LedgerState,
    auth: &AuthContext,
    session_id: u32,
    player1_won: bool,
    epoch: u32,
)
    requires
        end_game_spec(s, auth, session_id, player1_won) is Ok,
        wagers_positive(s),
        backed(s, epoch),
    ensures
        backed(end_game_spec(s, auth, session_id, player1_won)->Ok_0.0, epoch),
        wagers_positive(end_game_spec(s, auth, session_id, player1_won)->Ok_0.0),
{
    let (after, notice) = end_game_spec(s, auth, session_id, player1_won)->Ok_0;
    let active = s.current_epoch();
    let winner = notice.winner;
    let won_for = s.epoch_player(active, winner)->Some_0.epoch_faction->Some_0;
    let delta = if epoch == active {
        notice.fp_contributed as int
    } else {
        0
    };
    assert(s.session(session_id) is Some);
    assert(notice.fp_contributed > 0);
    lemma_wagers_kept(s, after, session_id);
    assert forall|u: Address, f: u32| #[trigger]
        contribution_to(after, epoch, u, f) == contribution_to(s, epoch, u, f) + (if u == winner
            && f == won_for {
            delta
        } else {
            0
        }) by {}
    assert(contributions_sound(after, epoch)) by {
        assert forall|u: Address| record_sound(#[trigger] after.epoch_player(epoch, u)) by {
            assert(record_sound(s.epoch_player(epoch, u)));
        }
    }
    lemma_backing_kept(s, after, epoch, winner, won_for, delta);
}

/// Opening a session keeps every epoch backed and the wagers positive: a
/// player enters an epoch with no contribution, and a faction is locked only
/// onto a record without one.
pub proof fn lemma_start_game_keeps_backed(
    s: LedgerState,
    auth: &AuthContext,
    game_id: Address,
    session_id: u32,
    player1: Address,
    player2: Address,
    player1_wager: i128,
    player2_wager: i128,
    report1: FundingReport,
    report2: FundingReport,
    epoch: u32,
)
    requires
        start_game_spec(
            s,
            auth,
            game_id,
            session_id,
            player1,
            player2,
            player1_wager,
            player2_wager,
            report1,
            report2,
        ) is Ok,
        wagers_positive(s),
        backed(s, epoch),
    ensures
        backed(
            start_game_spec(
                s,
                auth,
                game_id,
                session_id,
                player1,
                player2,
                player1_wager,
                player2_wager,
                report1,
                report2,
            )->Ok_0.0,
            epoch,
        ),
        wagers_positive(
            start_game_spec(
                s,
                auth,
                game_id,
                session_id,
                player1,
                player2,
                player1_wager,
                player2_wager,
                report1,
                report2,
            )->Ok_0.0,
        ),
{
    let after = start_game_spec(
        s,
        auth,
        game_id,
        session_id,
        player1,
        player2,
        player1_wager,
        player2_wager,
        report1,
        report2,
    )->Ok_0.0;
    lemma_wagers_kept(s, after, session_id);
    assert forall|u: Address, f: u32| #[trigger]
        contribution_to(after, epoch, u, f) == contribution_to(s, epoch, u, f) by {}
    assert(contributions_sound(after, epoch)) by {
        assert forall|u: Address| record_sound(#[trigger] after.epoch_player(epoch, u)) by {
            assert(record_sound(s.epoch_player(epoch, u)));
        }
    }
    assert(after.epoch(epoch) == s.epoch(epoch));
    lemma_backing_kept(s, after, epoch, player1, 0, 0);
}

/// Paying a reward keeps every epoch backed and the wagers positive.
pub proof fn lemma_claim_keeps_backed(
    s: LedgerState,
    auth: &AuthContext,
    user: Address,
    claimed_epoch: u32,
    epoch: u32,
)
    requires
        claim_epoch_reward_spec(s, auth, user, claimed_epoch) is Ok,
        wagers_positive(s),
        backed(s, epoch),
    ensures
        backed(claim_epoch_reward_spec(s, auth, user, claimed_epoch)->Ok_0.0, epoch),
        wagers_positive(claim_epoch_reward_spec(s, auth, user, claimed_epoch)->Ok_0.0),
{
    let after = claim_epoch_reward_spec(s, auth, user, claimed_epoch)->Ok_0.0;
    lemma_records_kept(s, after, epoch);
    assert(after.session(0u32) == s.session(0u32));
    lemma_wagers_kept(s, after, 0u32);
    lemma_backing_kept(s, after, epoch, user, 0, 0);
}

/// Two ledgers with the same sessions, the same epoch and the same records
/// of the epoch's players hold the same contributions and standings.
proof fn lemma_records_kept(a: LedgerState, b: LedgerState, epoch: u32)
    requires
        contributions_sound(a, epoch),
        forall|u: Address| #[trigger] b.epoch_player(epoch, u) == a.epoch_player(epoch, u),
    ensures
        contributions_sound(b, epoch),
        forall|u: Address, f: u32|
            #[trigger] contribution_to(b, epoch, u, f) == contribution_to(a, epoch, u, f),
{
    assert forall|u: Address| record_sound(#[trigger] b.epoch_player(epoch, u)) by {
        assert(b.epoch_player(epoch, u) == a.epoch_player(epoch, u));
    }
    assert forall|u: Address, f: u32| #[trigger]
        contribution_to(b, epoch, u, f) == contribution_to(a, epoch, u, f) by {
        assert(b.epoch_player(epoch, u) == a.epoch_player(epoch, u));
    }
}

proof fn lemma_claim_bounded(s: LedgerState, epoch: u32, user: Address, winning: u32)
    requires
        backed(s, epoch),
        s.epoch(epoch) is Some,
        s.epoch(epoch)->Some_0.winning_faction == Some(winning),
        s.epoch(epoch)->Some_0.reward_pool >= 0,
    ensures
        0 <= claimable_amount(s, user, epoch),
        0 <= contribution_to(s, epoch, user, winning),
        claimable_amount(s, user, epoch) != 0 ==> standing_of(s, epoch, winning) > 0,
        standing_of(s, epoch, winning) * claimable_amount(s, user, epoch) <= s.epoch(
            epoch,
        )->Some_0.reward_pool * contribution_to(s, epoch, user, winning),
{
    let info = s.epoch(epoch)->Some_0;
    let pool = info.reward_pool as int;
    let total = standing_of(s, epoch, winning);
    let given = contribution_to(s, epoch, user, winning);
    assert(record_sound(s.epoch_player(epoch, user)));
    assert(given >= 0);
    lemma_single_contribution(s, epoch, user, winning);
    assert(contributions_of(s, epoch, seq![user], winning) <= total);
    assert(pool * given >= 0) by (nonlinear_arith)
        requires
            pool >= 0,
            given >= 0,
    ;
    if reward_due(s, user, epoch) is Ok {
        assert(given > 0);
        assert(total > 0);
        lemma_payout_bounded(given, total, pool);
    } else {
        assert(total * 0 == 0);
    }
}

proof fn lemma_claims_bounded(s: LedgerState, epoch: u32, users: Seq<Address>, winning: u32)
    requires
        backed(s, epoch),
        s.epoch(epoch) is Some,
        s.epoch(epoch)->Some_0.winning_faction == Some(winning),
        s.epoch(epoch)->Some_0.reward_pool >= 0,
    ensures
        0 <= claims_sum(s, users, epoch),
        claims_sum(s, users, epoch) != 0 ==> standing_of(s, epoch, winning) > 0,
        standing_of(s, epoch, winning) * claims_sum(s, users, epoch) <= s.epoch(
            epoch,
        )->Some_0.reward_pool * contributions_of(s, epoch, users, winning),
    decreases users.len(),
{
    let pool = s.epoch(epoch)->Some_0.reward_pool as int;
    let total = standing_of(s, epoch, winning);
    if users.len() == 0 {
        assert(total * 0 == 0);
        assert(pool * 0 == 0);
    } else {
        let rest = users.drop_last();
        let last = users.last();
        lemma_claims_bounded(s, epoch, rest, winning);
        lemma_claim_bounded(s, epoch, last, winning);
        let paid_rest = claims_sum(s, rest, epoch);
        let paid_last = claimable_amount(s, last, epoch) as int;
        let given_rest = contributions_of(s, epoch, rest, winning);
        let given_last = contribution_to(s, epoch, last, winning);
        assert(total * (paid_rest + paid_last) <= pool * (given_rest + given_last))
            by (nonlinear_arith)
            requires
                total * paid_rest <= pool * given_rest,
                total * paid_last <= pool * given_last,
        ;
    }
}

proof fn lemma_nothing_claimable(s: LedgerState, epoch: u32, users: Seq<Address>)
    requires
        forall|u: Address| claimable_amount(s, u, epoch) == 0,
    ensures
        claims_sum(s, users, epoch) == 0,
    decreases users.len(),
{
    if users.len() > 0 {
        lemma_nothing_claimable(s, epoch, users.drop_last());
    }
}

/// No over-distribution: in a backed epoch whose pool is not negative, the
/// claims of any group of distinct users add up to no more than the pool.
pub proof fn lemma_claims_within_pool(s: LedgerState, epoch: u32, users: Seq<Address>)
    requires
        backed(s, epoch),
        users.no_duplicates(),
        s.epoch(epoch) is Some ==> s.epoch(epoch)->Some_0.reward_pool >= 0,
    ensures
        0 <= claims_sum(s, users, epoch),
        s.epoch(epoch) is Some ==> claims_sum(s, users, epoch) <= s.epoch(
            epoch,
        )->Some_0.reward_pool,
        s.epoch(epoch) is None ==> claims_sum(s, users, epoch) == 0,
{
    match s.epoch(epoch) {
        Some(info) => match info.winning_faction {
            Some(winning) => {
                lemma_claims_bounded(s, epoch, users, winning);
                let pool = info.reward_pool as int;
                let total = standing_of(s, epoch, winning);
                let paid = claims_sum(s, users, epoch);
                let given = contributions_of(s, epoch, users, winning);
                assert(given <= total);
                if paid != 0 {
                    assert(paid <= pool) by (nonlinear_arith)
                        requires
                            total * paid <= pool * given,
                            given <= total,
                            total > 0,
                            pool >= 0,
                    ;
                }
            },
            None => {
                lemma_nothing_claimable(s, epoch, users);
            },
        },
        None => {
            lemma_nothing_claimable(s, epoch, users);
        },
    }
}

/// Writing the record of an epoch keeps every epoch backed when no standing
/// is lowered: so when an epoch is finalized, and when an epoch that had no
/// record is opened.
pub proof fn lemma_epoch_written_keeps_backed(
    s: LedgerState,
    epoch: u32,
    info: EpochInfoView,
    other: u32,
)
    requires
        forall|faction: u32|
            standing_of(s, epoch, faction) <= #[trigger] points_of(info.faction_standings, faction),
        wagers_positive(s),
        backed(s, other),
    ensures
        backed(s.put(DataKey::Epoch(epoch), Record::Epoch(info)), other),
        wagers_positive(s.put(DataKey::Epoch(epoch), Record::Epoch(info))),
{
    let after = s.put(DataKey::Epoch(epoch), Record::Epoch(info));
    let nobody = Address { contract: false, hi: 0, lo: 0 };
    lemma_records_kept(s, after, other);
    assert(after.session(0u32) == s.session(0u32));
    lemma_wagers_kept(s, after, 0u32);
    assert forall|f: u32| standing_of(s, other, f) <= #[trigger] standing_of(after, other, f) by {
        if other == epoch {
            assert(standing_of(s, epoch, f) <= points_of(info.faction_standings, f));
        } else {
            assert(after.epoch(other) == s.epoch(other));
        }
    }
    lemma_backing_kept(s, after, other, nobody, 0, 0);
}

/// One call in a sequence of claims against an epoch: who claims, and what
/// the invocation was authorized by.
pub struct ClaimCall {
    pub auth: AuthContext,
    pub user: Address,
}

/// The ledger after a claim, whether it succeeded or not.
pub open spec fn ledger_after_claim(s: LedgerState, call: ClaimCall, epoch: u32) -> LedgerState {
    match claim_epoch_reward_spec(s, &call.auth, call.user, epoch) {
        Ok((after, _)) => after,
        Err(_) => s,
    }
}

/// What a claim pays: the amount when it succeeds, nothing when it fails.
pub open spec fn paid_by_claim(s: LedgerState, call: ClaimCall, epoch: u32) -> int {
    match claim_epoch_reward_spec(s, &call.auth, call.user, epoch) {
        Ok((_, payment)) => payment.amount as int,
        Err(_) => 0,
    }
}

/// The ledger after a sequence of claims against `epoch`, made in order.
pub open spec fn ledger_after_claims(s: LedgerState, calls: Seq<ClaimCall>, epoch: u32) -> LedgerState
    decreases calls.len(),
{
    if calls.len() == 0 {
        s
    } else {
        ledger_after_claim(ledger_after_claims(s, calls.drop_last(), epoch), calls.last(), epoch)
    }
}

/// The sum of what a sequence of claims against `epoch`, made in order, pays.
pub open spec fn paid_by_claims(s: LedgerState, calls: Seq<ClaimCall>, epoch: u32) -> int
    decreases calls.len(),
{
    if calls.len() == 0 {
        0
    } else {
        paid_by_claims(s, calls.drop_last(), epoch) + paid_by_claim(
            ledger_after_claims(s, calls.drop_last(), epoch),
            calls.last(),
            epoch,
        )
    }
}

/// The users whose claims in the sequence succeeded, in order.
spec fn paid_users(s: LedgerState, calls: Seq<ClaimCall>, epoch: u32) -> Seq<Address>
    decreases calls.len(),
{
    if calls.len() == 0 {
        Seq::empty()
    } else {
        let users = paid_users(s, calls.drop_last(), epoch);
        let before = ledger_after_claims(s, calls.drop_last(), epoch);
        if claim_epoch_reward_spec(before, &calls.last().auth, calls.last().user, epoch) is Ok {
            users.push(calls.last().user)
        } else {
            users
        }
    }
}

/// A sequence of claims pays each user at most once, and pays what was
/// claimable on the ledger the sequence began with: claims change nothing
/// but the marks of those who were paid.
proof fn lemma_claims_traced(s: LedgerState, calls: Seq<ClaimCall>, epoch: u32)
    ensures
        paid_users(s, calls, epoch).no_duplicates(),
        forall|k: DataKey|
            !(k is Claimed) ==> #[trigger] ledger_after_claims(s, calls, epoch).records.get(k)
                == s.records.get(k),
        forall|u: Address| #[trigger]
            ledger_after_claims(s, calls, epoch).claimed(u, epoch) == (s.claimed(u, epoch)
                || paid_users(s, calls, epoch).contains(u)),
        paid_by_claims(s, calls, epoch) == claims_sum(s, paid_users(s, calls, epoch), epoch),
    decreases calls.len(),
{
    if calls.len() > 0 {
        let rest = calls.drop_last();
        let call = calls.last();
        let before = ledger_after_claims(s, rest, epoch);
        let users = paid_users(s, rest, epoch);
        let after = ledger_after_claims(s, calls, epoch);
        lemma_claims_traced(s, rest, epoch);
        if claim_epoch_reward_spec(before, &call.auth, call.user, epoch) is Ok {
            let now = users.push(call.user);
            assert(!before.claimed(call.user, epoch));
            assert(!users.contains(call.user));
            assert(before.records.get(DataKey::Epoch(epoch)) == s.records.get(
                DataKey::Epoch(epoch),
            ));
            assert(before.records.get(DataKey::EpochPlayer(epoch, call.user)) == s.records.get(
                DataKey::EpochPlayer(epoch, call.user),
            ));
            assert(reward_due(before, call.user, epoch) == reward_due(s, call.user, epoch));
            assert(now.drop_last() =~= users);
            assert(now.last() == call.user);
            assert(now.no_duplicates()) by {
                assert forall|i: int, j: int| 0 <= i < now.len() && 0 <= j < now.len() && i
                    != j implies now[i] != now[j] by {
                    if i < users.len() && j < users.len() {
                        assert(users[i] != users[j]);
                    } else if i < users.len() {
                        assert(users.contains(users[i]));
                    } else {
                        assert(users.contains(users[j]));
                    }
                }
            }
            assert forall|u: Address| #[trigger]
                after.claimed(u, epoch) == (s.claimed(u, epoch) || now.contains(u)) by {
                assert(before.claimed(u, epoch) == (s.claimed(u, epoch) || users.contains(u)));
                if users.contains(u) {
                    let i = choose|i: int| 0 <= i < users.len() && users[i] == u;
                    assert(now[i] == u);
                }
                if now.contains(u) && u != call.user {
                    let i = choose|i: int| 0 <= i < now.len() && now[i] == u;
                    assert(users[i] == u);
                }
                assert(now[users.len() as int] == call.user);
            }
            assert forall|k: DataKey| !(k is Claimed) implies #[trigger] after.records.get(k)
                == s.records.get(k) by {
                assert(before.records.get(k) == s.records.get(k));
            }
        }
    }
}

/// No over-distribution, over calls: whatever claims are made against a
/// backed epoch whose pool is not negative, by whomever, in whatever order
/// and however often, what they pay adds up to no more than the pool.
pub proof fn lemma_claim_sequence_within_pool(s: LedgerState, calls: Seq<ClaimCall>, epoch: u32)
    requires
        backed(s, epoch),
        s.epoch(epoch) is Some ==> s.epoch(epoch)->Some_0.reward_pool >= 0,
    ensures
        0 <= paid_by_claims(s, calls, epoch),
        s.epoch(epoch) is Some ==> paid_by_claims(s, calls, epoch) <= s.epoch(
            epoch,
        )->Some_0.reward_pool,
        s.epoch(epoch) is None ==> paid_by_claims(s, calls, epoch) == 0,
{
    lemma_claims_traced(s, calls, epoch);
    lemma_claims_within_pool(s, epoch, paid_users(s, calls, epoch));
}

} // verus!
