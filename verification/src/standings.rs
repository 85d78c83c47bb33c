//! Per-epoch aggregate state: the standings of the factions and the epoch's
//! bookkeeping.
//!
//! The standings are held in a `soroban_sdk::Map`, as the host stores them.

use vstd::prelude::*;

verus! {

/// Declares `soroban_sdk::Map`, the host's ordered key-value dictionary, as
/// an opaque type: nothing is known of a value but what [`standings_of`]
/// names.
#[verifier::external_type_specification]
#[verifier::external_body]
#[verifier::reject_recursive_types(K)]
#[verifier::reject_recursive_types(V)]
pub struct ExHostMap<K, V>(soroban_sdk::Map<K, V>);

/// What a standings map holds: for each faction whose entry reads as an
/// amount, the faction points it has accumulated from won games.
pub uninterp spec fn standings_of(m: soroban_sdk::Map<u32, i128>) -> Map<u32, i128>;

/// The points read for a faction: those of its entry, zero without one.
pub open spec fn points_of(m: Map<u32, i128>, faction: u32) -> int {
    if m.contains_key(faction) {
        m[faction] as int
    } else {
        0
    }
}

/// Calls `Map::try_get` of `soroban_sdk`. Trusted: the result is the value
/// of the entry with the given key, and nothing when the map has no such
/// entry; an entry whose value does not read as an amount counts as none.
#[verifier::external_body]
pub(crate) fn standing(m: &soroban_sdk::Map<u32, i128>, faction: u32) -> (r: Option<i128>)
    ensures
        r == standings_of(*m).get(faction),
{
    match m.try_get(faction) {
        Ok(points) => points,
        Err(_) => None,
    }
}

/// Calls `Map::set` of `soroban_sdk`. Trusted: afterwards the map holds the
/// given value under the given key, replacing the one it held, and every
/// other entry as before.
#[verifier::external_body]
pub(crate) fn set_standing(m: &mut soroban_sdk::Map<u32, i128>, faction: u32, points: i128)
    ensures
        standings_of(*final(m)) == standings_of(*old(m)).insert(faction, points),
{
    m.set(faction, points)
}

/// Calls `Clone::clone` of `soroban_sdk::Map`. Trusted: the copy holds the
/// entries of the map it was made from.
#[verifier::external_body]
pub(crate) fn copy_standings(m: &soroban_sdk::Map<u32, i128>) -> (r: soroban_sdk::Map<u32, i128>)
    ensures
        standings_of(r) == standings_of(*m),
{
    m.clone()
}

/// The aggregate state of one epoch.
#[derive(Debug)]
pub struct EpochInfo {
    /// Ledger time at which the epoch began.
    pub start_time: u64,
    /// Ledger time at which the epoch ends.
    pub end_time: u64,
    /// Winning faction points accumulated by each faction. A faction
    /// without an entry has accumulated nothing yet.
    pub faction_standings: soroban_sdk::Map<u32, i128>,
    /// Amount to be split among the winning faction's contributors.
    pub reward_pool: i128,
    /// The faction that won the epoch, known once the epoch is finalized.
    pub winning_faction: Option<u32>,
    /// Whether the epoch has been closed.
    pub is_finalized: bool,
}

/// The mathematical content of an [`EpochInfo`].
pub struct EpochInfoView {
    pub start_time: u64,
    pub end_time: u64,
    pub faction_standings: Map<u32, i128>,
    pub reward_pool: i128,
    pub winning_faction: Option<u32>,
    pub is_finalized: bool,
}

impl View for EpochInfo {
    type V = EpochInfoView;

    open spec fn view(&self) -> EpochInfoView {
        EpochInfoView {
            start_time: self.start_time,
            end_time: self.end_time,
            faction_standings: standings_of(self.faction_standings),
            reward_pool: self.reward_pool,
            winning_faction: self.winning_faction,
            is_finalized: self.is_finalized,
        }
    }
}

impl Clone for EpochInfo {
    fn clone(&self) -> (r: Self)
        ensures
            r@ == self@,
    {
        EpochInfo {
            start_time: self.start_time,
            end_time: self.end_time,
            faction_standings: copy_standings(&self.faction_standings),
            reward_pool: self.reward_pool,
            winning_faction: self.winning_faction,
            is_finalized: self.is_finalized,
        }
    }
}

} // verus!
