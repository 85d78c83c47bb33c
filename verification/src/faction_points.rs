//! The faction-point ledger: what a player may wager in an epoch, and the
//! locks that wagers place on it.

use crate::storage::{get_epoch_player, get_player, set_epoch_player, DataKey, EpochStore, LedgerState, Record};
use crate::types::{Address, EpochPlayer, Error, Player};
use vstd::prelude::*;

verus! {

/// What the balance oracle and the faction-point budget report for a player
/// who enters an epoch.
#[derive(Clone, Copy, Debug, PartialEq, Eq)]
pub struct FundingReport {
    /// The player's current collateral balance.
    pub vault_balance: i128,
    /// The current ledger time.
    pub timestamp: u64,
    /// Whether the collateral shrank enough since the last epoch to restart
    /// the player's time multiplier, or why that could not be decided.
    pub withdrawal_reset: Result<bool, Error>,
    /// The faction points the player may wager this epoch, or why they could
    /// not be computed.
    pub epoch_fp: Result<i128, Error>,
}

/// The record of a player nothing is on file for.
pub open spec fn blank_player() -> Player {
    Player { selected_faction: 0, time_multiplier_start: 0, last_epoch_balance: 0 }
}

/// The records of a player after entering an epoch with `report`, given the
/// cross-epoch record on file.
///
/// The time multiplier starts with the first positive balance and restarts
/// on a reset; the balance is remembered for the next epoch; the epoch record
/// starts with the reported budget, no faction, no lock and no contribution.
/// A failure of either report is passed on; a player without a record and
/// without a balance cannot enter.
pub open spec fn entered(player: Option<Player>, report: FundingReport) -> Result<
    (Player, EpochPlayer),
    Error,
> {
    let base = match player {
        Some(p) => p,
        None => blank_player(),
    };
    let first_balance = base.time_multiplier_start == 0 && report.vault_balance > 0;
    match report.withdrawal_reset {
        Err(e) => Err(e),
        Ok(reset) => match report.epoch_fp {
            Err(e) => Err(e),
            Ok(fp) => if player is None && !first_balance {
                Err(Error::PlayerNotFound)
            } else {
                Ok(
                    (
                        Player {
                            selected_faction: base.selected_faction,
                            time_multiplier_start: if first_balance || reset {
                                report.timestamp
                            } else {
                                base.time_multiplier_start
                            },
                            last_epoch_balance: report.vault_balance,
                        },
                        EpochPlayer {
                            epoch_faction: None,
                            epoch_balance_snapshot: report.vault_balance,
                            available_fp: fp,
                            locked_fp: 0,
                            total_fp_contributed: 0,
                        },
                    ),
                )
            },
        },
    }
}

/// Computes the records of a player who enters an epoch.
pub fn enter_epoch(player: Option<Player>, report: &FundingReport) -> (r: Result<
    (Player, EpochPlayer),
    Error,
>)
    ensures
        r == entered(player, *report),
{
    let base = match player {
        Some(p) => p,
        None => Player { selected_faction: 0, time_multiplier_start: 0, last_epoch_balance: 0 },
    };
    let first_balance = base.time_multiplier_start == 0 && report.vault_balance > 0;
    let reset = match report.withdrawal_reset {
        Err(e) => {
            return Err(e);
        },
        Ok(reset) => reset,
    };
    let fp = match report.epoch_fp {
        Err(e) => {
            return Err(e);
        },
        Ok(fp) => fp,
    };
    if player.is_none() && !first_balance {
        return Err(Error::PlayerNotFound);
    }
    let start = if first_balance || reset {
        report.timestamp
    } else {
        base.time_multiplier_start
    };
    Ok(
        (
            Player {
                selected_faction: base.selected_faction,
                time_multiplier_start: start,
                last_epoch_balance: report.vault_balance,
            },
            EpochPlayer {
                epoch_faction: None,
                epoch_balance_snapshot: report.vault_balance,
                available_fp: fp,
                locked_fp: 0,
                total_fp_contributed: 0,
            },
        ),
    )
}

impl EpochPlayer {
    /// The record with its faction locked to `selected`, unless one is
    /// locked already.
    pub open spec fn faction_locked(self, selected: u32) -> EpochPlayer {
        if self.epoch_faction is Some {
            self
        } else {
            EpochPlayer { epoch_faction: Some(selected), ..self }
        }
    }

    /// The record after `amount` moved from the spendable points into the
    /// lock; `InsufficientFactionPoints` when `amount` exceeds what is
    /// spendable.
    pub open spec fn fp_locked(self, amount: i128) -> Result<EpochPlayer, Error> {
        if amount > self.available_fp {
            Err(Error::InsufficientFactionPoints)
        } else if self.available_fp - amount > i128::MAX || self.locked_fp + amount > i128::MAX
            || self.locked_fp + amount < i128::MIN {
            Err(Error::OverflowError)
        } else {
            Ok(
                EpochPlayer {
                    available_fp: (self.available_fp - amount) as i128,
                    locked_fp: (self.locked_fp + amount) as i128,
                    ..self
                },
            )
        }
    }

    /// The record with nothing locked.
    pub open spec fn released(self) -> EpochPlayer {
        EpochPlayer { locked_fp: 0, ..self }
    }

    /// The record after a won wager was added to the contribution.
    pub open spec fn credited(self, wager: i128) -> Result<EpochPlayer, Error> {
        if self.total_fp_contributed + wager > i128::MAX || self.total_fp_contributed + wager
            < i128::MIN {
            Err(Error::OverflowError)
        } else {
            Ok(
                EpochPlayer {
                    total_fp_contributed: (self.total_fp_contributed + wager) as i128,
                    ..self
                },
            )
        }
    }

    /// Locks the faction for the epoch; a no-op when one is locked.
    pub fn lock_faction(&self, selected: u32) -> (r: EpochPlayer)
        ensures
            r == self.faction_locked(selected),
    {
        if self.epoch_faction.is_some() {
            *self
        } else {
            EpochPlayer {
                epoch_faction: Some(selected),
                epoch_balance_snapshot: self.epoch_balance_snapshot,
                available_fp: self.available_fp,
                locked_fp: self.locked_fp,
                total_fp_contributed: self.total_fp_contributed,
            }
        }
    }

    /// Moves `amount` from the spendable points into the lock.
    pub fn lock_points(&self, amount: i128) -> (r: Result<EpochPlayer, Error>)
        ensures
            r == self.fp_locked(amount),
    {
        if amount > self.available_fp {
            return Err(Error::InsufficientFactionPoints);
        }
        let available: i128 = match self.available_fp.checked_sub(amount) {
            Some(v) => v,
            None => {
                return Err(Error::OverflowError);
            },
        };
        let locked: i128 = match self.locked_fp.checked_add(amount) {
            Some(v) => v,
            None => {
                return Err(Error::OverflowError);
            },
        };
        Ok(
            EpochPlayer {
                epoch_faction: self.epoch_faction,
                epoch_balance_snapshot: self.epoch_balance_snapshot,
                available_fp: available,
                locked_fp: locked,
                total_fp_contributed: self.total_fp_contributed,
            },
        )
    }

    /// Releases whatever is locked.
    pub fn release(&self) -> (r: EpochPlayer)
        ensures
            r == self.released(),
    {
        EpochPlayer {
            epoch_faction: self.epoch_faction,
            epoch_balance_snapshot: self.epoch_balance_snapshot,
            available_fp: self.available_fp,
            locked_fp: 0,
            total_fp_contributed: self.total_fp_contributed,
        }
    }

    /// Adds a won wager to the contribution; overflow is an error.
    pub fn credit(&self, wager: i128) -> (r: Result<EpochPlayer, Error>)
        ensures
            r == self.credited(wager),
    {
        match self.total_fp_contributed.checked_add(wager) {
            None => Err(Error::OverflowError),
            Some(total) => Ok(
                EpochPlayer {
                    epoch_faction: self.epoch_faction,
                    epoch_balance_snapshot: self.epoch_balance_snapshot,
                    available_fp: self.available_fp,
                    locked_fp: self.locked_fp,
                    total_fp_contributed: total,
                },
            ),
        }
    }
}

/// The ledger after `player`'s faction was locked for `epoch`.
pub open spec fn lock_epoch_faction_spec(s: LedgerState, player: Address, epoch: u32) -> Result<
    LedgerState,
    Error,
> {
    match s.player(player) {
        None => Err(Error::FactionNotSelected),
        Some(p) => match s.epoch_player(epoch, player) {
            None => Err(Error::PlayerNotFound),
            Some(ep) => Ok(
                s.put(
                    DataKey::EpochPlayer(epoch, player),
                    Record::EpochPlayer(ep.faction_locked(p.selected_faction)),
                ),
            ),
        },
    }
}

/// Locks a player's faction for an epoch to the one on file. Locking again
/// changes nothing: once locked, the faction stays for the epoch.
pub fn lock_epoch_faction(store: &mut EpochStore, player: &Address, epoch: u32) -> (r: Result<
    (),
    Error,
>)
    ensures
        match lock_epoch_faction_spec(old(store)@, *player, epoch) {
            Ok(s) => r is Ok && final(store)@ == s,
            Err(e) => r == Err::<(), Error>(e) && final(store)@ == old(store)@,
        },
{
    let on_file = match get_player(store, player) {
        None => {
            return Err(Error::FactionNotSelected);
        },
        Some(p) => p,
    };
    let record = match get_epoch_player(store, epoch, player) {
        None => {
            return Err(Error::PlayerNotFound);
        },
        Some(ep) => ep,
    };
    set_epoch_player(store, epoch, player, &record.lock_faction(on_file.selected_faction));
    Ok(())
}

/// The ledger after `amount` of `player`'s faction points was locked.
pub open spec fn lock_fp_spec(s: LedgerState, player: Address, amount: i128, epoch: u32) -> Result<
    LedgerState,
    Error,
> {
    match s.epoch_player(epoch, player) {
        None => Err(Error::PlayerNotFound),
        Some(ep) => match ep.fp_locked(amount) {
            Err(e) => Err(e),
            Ok(locked) => Ok(
                s.put(DataKey::EpochPlayer(epoch, player), Record::EpochPlayer(locked)),
            ),
        },
    }
}

/// Locks a wager against a player's budget for the epoch. Either the whole
/// amount is locked or nothing changes.
pub fn lock_fp(store: &mut EpochStore, player: &Address, amount: i128, epoch: u32) -> (r: Result<
    (),
    Error,
>)
    ensures
        match lock_fp_spec(old(store)@, *player, amount, epoch) {
            Ok(s) => r is Ok && final(store)@ == s,
            Err(e) => r == Err::<(), Error>(e) && final(store)@ == old(store)@,
        },
{
    let record = match get_epoch_player(store, epoch, player) {
        None => {
            return Err(Error::PlayerNotFound);
        },
        Some(ep) => ep,
    };
    let locked = match record.lock_points(amount) {
        Err(e) => {
            return Err(e);
        },
        Ok(locked) => locked,
    };
    set_epoch_player(store, epoch, player, &locked);
    Ok(())
}

} // verus!
