//! Proportional split of a finalized epoch's reward pool.

use crate::auth::AuthContext;
use crate::conservation::{conserved, lemma_claim_conserves};
use crate::standings::{points_of, standing};
use crate::storage::{
    get_epoch, get_epoch_player, has_claimed, set_claimed, DataKey, EpochStore, LedgerState,
    Record,
};
use crate::types::{Address, Error, RewardsClaimed, SCALAR_7};
use soroban_fixed_point_math::FixedPoint;
use vstd::prelude::*;

verus! {

/// The greatest integer not above `a / b`, for a nonzero `b`.
pub open spec fn floor_div(a: int, b: int) -> int
    recommends
        b != 0,
{
    if b > 0 {
        a / b
    } else {
        (-a) / (-b)
    }
}

/// `floor(x * y / z)` as 128-bit checked arithmetic yields it: nothing when
/// `z` is zero, when the product `x * y` leaves the 128-bit range, or when
/// the quotient does.
pub open spec fn mul_div_floor(x: int, y: int, z: int) -> Option<i128> {
    let product = x * y;
    if z == 0 || product < i128::MIN || product > i128::MAX {
        None
    } else if floor_div(product, z) < i128::MIN || floor_div(product, z) > i128::MAX {
        None
    } else {
        Some(floor_div(product, z) as i128)
    }
}

/// Calls `FixedPoint::fixed_mul_floor` of `soroban_fixed_point_math` on
/// `i128`. Trusted: the result is `floor(x * y / denominator)`, or nothing
/// when the denominator is zero or the computation overflows 128 bits.
#[verifier::external_body]
fn fixed_mul_floor(x: i128, y: i128, denominator: i128) -> (r: Option<i128>)
    ensures
        r == mul_div_floor(x as int, y as int, denominator as int),
{
    x.fixed_mul_floor(y, denominator)
}

/// Calls `FixedPoint::fixed_div_floor` of `soroban_fixed_point_math` on
/// `i128`. Trusted: the result is `floor(x * denominator / y)`, or nothing
/// when `y` is zero or the computation overflows 128 bits.
#[verifier::external_body]
fn fixed_div_floor(x: i128, y: i128, denominator: i128) -> (r: Option<i128>)
    ensures
        r == mul_div_floor(x as int, denominator as int, y as int),
{
    x.fixed_div_floor(y, denominator)
}

/// The share of `reward_pool` owed for `user_fp` out of `total_fp`: first
/// the seven-decimal share `floor(user_fp * 10^7 / total_fp)`, then
/// `floor(reward_pool * share / 10^7)`.
pub open spec fn reward_share(user_fp: int, total_fp: int, reward_pool: int) -> Result<i128, Error> {
    match mul_div_floor(user_fp, SCALAR_7 as int, total_fp) {
        None => Err(Error::DivisionByZero),
        Some(share) => match mul_div_floor(reward_pool, share as int, SCALAR_7 as int) {
            None => Err(Error::OverflowError),
            Some(reward) => Ok(reward),
        },
    }
}

/// Computes a contributor's part of the reward pool.
///
/// Fails with `DivisionByZero` when the share cannot be computed (the total
/// is zero, or scaling the contribution overflows) and with `OverflowError`
/// when multiplying the pool by the share overflows.
pub fn calculate_reward_share(user_fp: i128, total_fp: i128, reward_pool: i128) -> (r: Result<
    i128,
    Error,
>)
    ensures
        r == reward_share(user_fp as int, total_fp as int, reward_pool as int),
{
    match fixed_div_floor(user_fp, total_fp, SCALAR_7) {
        None => Err(Error::DivisionByZero),
        Some(share) => match fixed_mul_floor(reward_pool, share, SCALAR_7) {
            None => Err(Error::OverflowError),
            Some(reward) => Ok(reward),
        },
    }
}

/// What `user` is owed from the pool of `epoch`, with the faction it is
/// owed for, or why nothing is owed. The conditions are tested in this
/// order: not yet paid; the epoch exists, is finalized and has a winner; the
/// user has a record for the epoch, with a faction; that faction won; the
/// user contributed; the winning faction's standing, read as zero when it
/// has no entry, is not zero (`DivisionByZero`); the share can be computed;
/// it is not zero.
pub open spec fn reward_due(s: LedgerState, user: Address, epoch: u32) -> Result<
    (u32, i128),
    Error,
> {
    if s.claimed(user, epoch) {
        Err(Error::RewardAlreadyClaimed)
    } else {
        match s.epoch(epoch) {
            None => Err(Error::EpochNotFinalized),
            Some(info) => if !info.is_finalized {
                Err(Error::EpochNotFinalized)
            } else {
                match info.winning_faction {
                    None => Err(Error::EpochNotFinalized),
                    Some(winning) => match s.epoch_player(epoch, user) {
                        None => Err(Error::NoRewardsAvailable),
                        Some(record) => match record.epoch_faction {
                            None => Err(Error::NoRewardsAvailable),
                            Some(faction) => if faction != winning {
                                Err(Error::NotWinningFaction)
                            } else if record.total_fp_contributed == 0 {
                                Err(Error::NoRewardsAvailable)
                            } else if points_of(info.faction_standings, winning) == 0 {
                                Err(Error::DivisionByZero)
                            } else {
                                match reward_share(
                                    record.total_fp_contributed as int,
                                    points_of(info.faction_standings, winning),
                                    info.reward_pool as int,
                                ) {
                                    Err(e) => Err(e),
                                    Ok(amount) => if amount == 0 {
                                        Err(Error::NoRewardsAvailable)
                                    } else {
                                        Ok((faction, amount))
                                    },
                                }
                            },
                        },
                    },
                }
            },
        }
    }
}

fn assess_reward(store: &EpochStore, user: &Address, epoch: u32) -> (r: Result<(u32, i128), Error>)
    ensures
        r == reward_due(store@, *user, epoch),
{
    if has_claimed(store, user, epoch) {
        return Err(Error::RewardAlreadyClaimed);
    }
    let info = match get_epoch(store, epoch) {
        None => {
            return Err(Error::EpochNotFinalized);
        },
        Some(info) => info,
    };
    if !info.is_finalized {
        return Err(Error::EpochNotFinalized);
    }
    let winning_faction = match info.winning_faction {
        None => {
            return Err(Error::EpochNotFinalized);
        },
        Some(faction) => faction,
    };
    let record = match get_epoch_player(store, epoch, user) {
        None => {
            return Err(Error::NoRewardsAvailable);
        },
        Some(record) => record,
    };
    let user_faction = match record.epoch_faction {
        None => {
            return Err(Error::NoRewardsAvailable);
        },
        Some(faction) => faction,
    };
    if user_faction != winning_faction {
        return Err(Error::NotWinningFaction);
    }
    if record.total_fp_contributed == 0 {
        return Err(Error::NoRewardsAvailable);
    }
    let total_winning_fp: i128 = match standing(&info.faction_standings, winning_faction) {
        None => 0,
        Some(points) => points,
    };
    if total_winning_fp == 0 {
        return Err(Error::DivisionByZero);
    }
    let amount: i128 = calculate_reward_share(
        record.total_fp_contributed,
        total_winning_fp,
        info.reward_pool,
    )?;
    if amount == 0 {
        return Err(Error::NoRewardsAvailable);
    }
    Ok((user_faction, amount))
}

/// What claiming a reward does: the new ledger and the payment, or the error.
pub open spec fn claim_epoch_reward_spec(
    s: LedgerState,
    auth: &AuthContext,
    user: Address,
    epoch: u32,
) -> Result<(LedgerState, RewardsClaimed), Error> {
    if !auth.invoked_by(user) {
        Err(Error::Unauthorized)
    } else {
        match reward_due(s, user, epoch) {
            Err(e) => Err(e),
            Ok((faction, amount)) => Ok(
                (
                    s.put(DataKey::Claimed(user, epoch), Record::Claimed(true)),
                    RewardsClaimed { user, epoch, faction, amount },
                ),
            ),
        }
    }
}

/// Pays a contributor their share of a finalized epoch's pool, once.
///
/// `user` must have authorized the invocation. On success the claim is
/// marked as paid in the ledger and the result says what to transfer to
/// `user`; the amount is never zero. On failure nothing is marked and
/// nothing is to be transferred.
pub fn claim_epoch_reward(store: &mut EpochStore, auth: &AuthContext, user: &Address, epoch: u32) -> (r:
    Result<RewardsClaimed, Error>)
    ensures
        match claim_epoch_reward_spec(old(store)@, auth, *user, epoch) {
            Ok((s, payment)) => r == Ok::<RewardsClaimed, Error>(payment) && final(store)@ == s,
            Err(e) => r == Err::<RewardsClaimed, Error>(e) && final(store)@ == old(store)@,
        },
        forall|any: u32| conserved(old(store)@, any) ==> conserved(final(store)@, any),
{
    if !auth.require_auth(user) {
        return Err(Error::Unauthorized);
    }
    let (faction, amount) = assess_reward(store, user, epoch)?;
    set_claimed(store, user, epoch);
    proof {
        assert forall|any: u32| conserved(old(store)@, any) implies conserved(store@, any) by {
            lemma_claim_conserves(old(store)@, auth, *user, epoch, any);
        }
    }
    Ok(RewardsClaimed { user: *user, epoch, faction, amount })
}

/// What a claim by `user` for `epoch` would pay now; zero when it would fail.
pub open spec fn claimable_amount(s: LedgerState, user: Address, epoch: u32) -> i128 {
    match reward_due(s, user, epoch) {
        Ok((_, amount)) => amount,
        Err(_) => 0,
    }
}

/// Previews what a claim would pay, without changing anything. The amount
/// is the one [`claim_epoch_reward`] would pay, and zero whenever it would
/// fail for a reason other than authorization.
pub fn get_claimable_amount(store: &EpochStore, user: &Address, epoch: u32) -> (r: i128)
    ensures
        r == claimable_amount(store@, *user, epoch),
{
    match assess_reward(store, user, epoch) {
        Ok((_, amount)) => amount,
        Err(_) => 0,
    }
}

/// Whether the user's reward for the epoch has been paid.
pub fn has_claimed_rewards(store: &EpochStore, user: &Address, epoch: u32) -> (r: bool)
    ensures
        r == store@.claimed(*user, epoch),
{
    has_claimed(store, user, epoch)
}

proof fn lemma_quotient_bounds(x: int, d: int)
    requires
        d > 0,
    ensures
        d * (x / d) <= x,
        x >= 0 ==> x / d >= 0,
{
    vstd::arithmetic::div_mod::lemma_fundamental_div_mod(x, d);
    vstd::arithmetic::div_mod::lemma_mod_bound(x, d);
    if x >= 0 {
        vstd::arithmetic::div_mod::lemma_div_pos_is_pos(x, d);
    }
}

/// Reward monotonicity: of two contributions to the same faction in the
/// same epoch, the larger never earns less. The pool must not be negative
/// (with a positive total; or, mirrored, not positive with a negative one).
pub proof fn lemma_reward_monotonic(a: int, b: int, total_fp: int, reward_pool: int)
    requires
        a <= b,
        (total_fp > 0 && reward_pool >= 0) || (total_fp < 0 && reward_pool <= 0),
        reward_share(a, total_fp, reward_pool) is Ok,
        reward_share(b, total_fp, reward_pool) is Ok,
    ensures
        reward_share(a, total_fp, reward_pool)->Ok_0 <= reward_share(
            b,
            total_fp,
            reward_pool,
        )->Ok_0,
{
    let scale = SCALAR_7 as int;
    let share_a = floor_div(a * scale, total_fp);
    let share_b = floor_div(b * scale, total_fp);
    assert(a * scale <= b * scale);
    if total_fp > 0 {
        vstd::arithmetic::div_mod::lemma_div_is_ordered(a * scale, b * scale, total_fp);
        assert(share_a <= share_b);
        assert(reward_pool * share_a <= reward_pool * share_b) by (nonlinear_arith)
            requires
                share_a <= share_b,
                reward_pool >= 0,
        ;
    } else {
        vstd::arithmetic::div_mod::lemma_div_is_ordered(-(b * scale), -(a * scale), -total_fp);
        assert(share_b <= share_a);
        assert(reward_pool * share_a <= reward_pool * share_b) by (nonlinear_arith)
            requires
                share_b <= share_a,
                reward_pool <= 0,
        ;
    }
    vstd::arithmetic::div_mod::lemma_div_is_ordered(
        reward_pool * share_a,
        reward_pool * share_b,
        scale,
    );
}

/// What a claim pays for a contribution: the reward share, or nothing when
/// it cannot be computed.
pub open spec fn payout(user_fp: int, total_fp: int, reward_pool: int) -> int {
    match reward_share(user_fp, total_fp, reward_pool) {
        Ok(amount) => amount as int,
        Err(_) => 0,
    }
}

/// The sum of a sequence of contributions.
pub open spec fn contributions_sum(contributions: Seq<int>) -> int
    decreases contributions.len(),
{
    if contributions.len() == 0 {
        0
    } else {
        contributions_sum(contributions.drop_last()) + contributions.last()
    }
}

/// The sum of what claims pay for a sequence of contributions.
pub open spec fn payouts_sum(contributions: Seq<int>, total_fp: int, reward_pool: int) -> int
    decreases contributions.len(),
{
    if contributions.len() == 0 {
        0
    } else {
        payouts_sum(contributions.drop_last(), total_fp, reward_pool) + payout(
            contributions.last(),
            total_fp,
            reward_pool,
        )
    }
}

/// Flooring never pays more than the exact proportion: a payout, scaled by
/// the faction's total, is bounded by the pool scaled by the contribution.
pub proof fn lemma_payout_bounded(user_fp: int, total_fp: int, reward_pool: int)
    requires
        user_fp >= 0,
        total_fp > 0,
        reward_pool >= 0,
    ensures
        0 <= payout(user_fp, total_fp, reward_pool),
        total_fp * payout(user_fp, total_fp, reward_pool) <= reward_pool * user_fp,
{
    let scale = SCALAR_7 as int;
    assert(reward_pool * user_fp >= 0) by (nonlinear_arith)
        requires
            reward_pool >= 0,
            user_fp >= 0,
    ;
    if reward_share(user_fp, total_fp, reward_pool) is Ok {
        let share = (user_fp * scale) / total_fp;
        let amount = (reward_pool * share) / scale;
        lemma_quotient_bounds(user_fp * scale, total_fp);
        assert(reward_pool * share >= 0) by (nonlinear_arith)
            requires
                reward_pool >= 0,
                share >= 0,
        ;
        lemma_quotient_bounds(reward_pool * share, scale);
        assert(payout(user_fp, total_fp, reward_pool) == amount);
        assert(total_fp * (scale * amount) <= total_fp * (reward_pool * share))
            by (nonlinear_arith)
            requires
                scale * amount <= reward_pool * share,
                total_fp > 0,
        ;
        assert(reward_pool * (total_fp * share) <= reward_pool * (user_fp * scale))
            by (nonlinear_arith)
            requires
                total_fp * share <= user_fp * scale,
                reward_pool >= 0,
        ;
        assert(scale * (total_fp * amount) <= scale * (reward_pool * user_fp))
            by (nonlinear_arith)
            requires
                total_fp * (scale * amount) <= total_fp * (reward_pool * share),
                reward_pool * (total_fp * share) <= reward_pool * (user_fp * scale),
        ;
    } else {
        assert(total_fp * 0 == 0);
    }
}

/// No over-distribution: the claims of contributors whose contributions
/// together do not exceed the winning faction's total never add up to more
/// than the pool.
pub proof fn lemma_no_over_distribution(contributions: Seq<int>, total_fp: int, reward_pool: int)
    requires
        forall|i: int| 0 <= i < contributions.len() ==> contributions[i] >= 0,
        contributions_sum(contributions) <= total_fp,
        total_fp > 0,
        reward_pool >= 0,
    ensures
        0 <= payouts_sum(contributions, total_fp, reward_pool) <= reward_pool,
{
    lemma_payouts_bounded(contributions, total_fp, reward_pool);
    let paid = payouts_sum(contributions, total_fp, reward_pool);
    let given = contributions_sum(contributions);
    assert(paid <= reward_pool) by (nonlinear_arith)
        requires
            total_fp * paid <= reward_pool * given,
            given <= total_fp,
            total_fp > 0,
            reward_pool >= 0,
    ;
}

proof fn lemma_payouts_bounded(contributions: Seq<int>, total_fp: int, reward_pool: int)
    requires
        forall|i: int| 0 <= i < contributions.len() ==> contributions[i] >= 0,
        total_fp > 0,
        reward_pool >= 0,
    ensures
        0 <= payouts_sum(contributions, total_fp, reward_pool),
        total_fp * payouts_sum(contributions, total_fp, reward_pool) <= reward_pool
            * contributions_sum(contributions),
    decreases contributions.len(),
{
    if contributions.len() == 0 {
        assert(total_fp * 0 == 0);
        assert(reward_pool * 0 == 0);
    } else {
        let rest = contributions.drop_last();
        let last = contributions.last();
        lemma_payouts_bounded(rest, total_fp, reward_pool);
        lemma_payout_bounded(last, total_fp, reward_pool);
        let paid_rest = payouts_sum(rest, total_fp, reward_pool);
        let paid_last = payout(last, total_fp, reward_pool);
        let given_rest = contributions_sum(rest);
        assert(total_fp * (paid_rest + paid_last) <= reward_pool * (given_rest + last))
            by (nonlinear_arith)
            requires
                total_fp * paid_rest <= reward_pool * given_rest,
                total_fp * paid_last <= reward_pool * last,
        ;
    }
}

/// No double claim: after a claim succeeded, paying a nonzero amount, a
/// second claim by the same user for the same epoch fails, with
/// `RewardAlreadyClaimed` when it is authorized, and nothing is claimable.
/// With a positive contribution and total and a pool that is not negative,
/// the amount paid is positive.
pub proof fn lemma_no_double_claim(
    s: LedgerState,
    first: &AuthContext,
    second: &AuthContext,
    user: Address,
    epoch: u32,
)
    requires
        claim_epoch_reward_spec(s, first, user, epoch) is Ok,
    ensures
        ({
            let (after, payment) = claim_epoch_reward_spec(s, first, user, epoch)->Ok_0;
            let again = claim_epoch_reward_spec(after, second, user, epoch);
            let info = s.epoch(epoch)->Some_0;
            let record = s.epoch_player(epoch, user)->Some_0;
            &&& payment.amount != 0
            &&& payment.amount == claimable_amount(s, user, epoch)
            &&& record.total_fp_contributed > 0 && points_of(
                info.faction_standings,
                payment.faction,
            ) > 0 && info.reward_pool >= 0 ==> payment.amount > 0
            &&& again is Err
            &&& second.invoked_by(user) ==> again == Err::<(LedgerState, RewardsClaimed), Error>(
                Error::RewardAlreadyClaimed,
            )
            &&& claimable_amount(after, user, epoch) == 0
        }),
{
    let info = s.epoch(epoch)->Some_0;
    let record = s.epoch_player(epoch, user)->Some_0;
    let faction = record.epoch_faction->Some_0;
    if record.total_fp_contributed > 0 && points_of(info.faction_standings, faction) > 0
        && info.reward_pool >= 0 {
        lemma_payout_bounded(
            record.total_fp_contributed as int,
            points_of(info.faction_standings, faction),
            info.reward_pool as int,
        );
    }
}

/// A claim changes what is owed to nobody but the claimant.
pub proof fn lemma_claim_leaves_others(
    s: LedgerState,
    auth: &AuthContext,
    user: Address,
    other: Address,
    epoch: u32,
    other_epoch: u32,
)
    requires
        claim_epoch_reward_spec(s, auth, user, epoch) is Ok,
        other != user || other_epoch != epoch,
    ensures
        reward_due(claim_epoch_reward_spec(s, auth, user, epoch)->Ok_0.0, other, other_epoch)
            == reward_due(s, other, other_epoch),
{
}

/// A claim against a winning faction whose standing reads as zero, be it an
/// entry of zero or no entry at all, fails with `DivisionByZero`, and nothing
/// is claimable.
pub proof fn lemma_zero_standing_refused(
    s: LedgerState,
    auth: &AuthContext,
    user: Address,
    epoch: u32,
)
    requires
        auth.invoked_by(user),
        !s.claimed(user, epoch),
        s.epoch(epoch) is Some,
        s.epoch(epoch)->Some_0.is_finalized,
        s.epoch(epoch)->Some_0.winning_faction is Some,
        s.epoch_player(epoch, user) is Some,
        s.epoch_player(epoch, user)->Some_0.epoch_faction == s.epoch(
            epoch,
        )->Some_0.winning_faction,
        s.epoch_player(epoch, user)->Some_0.total_fp_contributed != 0,
        points_of(
            s.epoch(epoch)->Some_0.faction_standings,
            s.epoch(epoch)->Some_0.winning_faction->Some_0,
        ) == 0,
    ensures
        claim_epoch_reward_spec(s, auth, user, epoch) == Err::<(LedgerState, RewardsClaimed), Error>(
            Error::DivisionByZero,
        ),
        claimable_amount(s, user, epoch) == 0,
{
}

} // verus!
