//! Plain data shared by the ledger, the session lifecycle and the reward
//! distributor.

use vstd::prelude::*;

verus! {

/// Scale of the seven-decimal fixed-point numbers used for shares.
pub const SCALAR_7: i128 = 10_000_000;

/// Typed failures returned by the entry points.
#[derive(Clone, Copy, Debug, PartialEq, Eq, Structural)]
pub enum Error {
    /// The caller is not the administrator.
    NotAdmin,
    /// A required authorization is missing from the invocation.
    Unauthorized,
    /// The game contract is not on the allow-list.
    GameNotWhitelisted,
    /// A session with this id already exists.
    SessionAlreadyExists,
    /// No session with this id exists.
    SessionNotFound,
    /// The session has already been settled.
    InvalidSessionState,
    /// The session belongs to an epoch that is no longer active.
    GameExpired,
    /// A wager is zero or negative.
    InvalidAmount,
    /// The wager exceeds the player's spendable faction points.
    InsufficientFactionPoints,
    /// The player has no faction selection on file.
    FactionNotSelected,
    /// The player's faction for the epoch is not in the state the operation needs.
    FactionAlreadyLocked,
    /// A player record that the operation needs is missing.
    PlayerNotFound,
    /// An addition or multiplication left the range of the amounts.
    OverflowError,
    /// The divisor of a share is zero.
    DivisionByZero,
    /// The epoch is unknown or not yet finalized.
    EpochNotFinalized,
    /// The player's faction did not win the epoch.
    NotWinningFaction,
    /// Nothing can be paid to the player for the epoch.
    NoRewardsAvailable,
    /// The reward for the epoch has already been paid to the player.
    RewardAlreadyClaimed,
    /// The platform is paused.
    ContractPaused,
}

/// Identity of an account or a contract: its kind and its 256-bit key,
/// held as two halves.
#[derive(Clone, Copy, Debug, PartialEq, Eq, Structural)]
pub struct Address {
    /// Whether this is a contract (otherwise an account).
    pub contract: bool,
    /// The upper 128 bits of the key.
    pub hi: u128,
    /// The lower 128 bits of the key.
    pub lo: u128,
}

/// Global configuration, written once at initialization.
#[derive(Clone, Copy, Debug, PartialEq, Eq, Structural)]
pub struct Config {
    /// The vault that holds the players' collateral.
    pub fee_vault: Address,
    /// The router through which yield is converted into the payout asset.
    pub soroswap_router: Address,
    /// The asset in which yield accrues.
    pub blnd_token: Address,
    /// The asset in which rewards are paid.
    pub usdc_token: Address,
    /// Length of an epoch in seconds of ledger time.
    pub epoch_duration: u64,
}

/// What is kept of a player across epochs.
#[derive(Clone, Copy, Debug, PartialEq, Eq, Structural)]
pub struct Player {
    /// The faction the player has selected.
    pub selected_faction: u32,
    /// Ledger time from which the player's time multiplier counts; zero
    /// until the player first holds a balance.
    pub time_multiplier_start: u64,
    /// Collateral balance seen when the player last entered an epoch.
    pub last_epoch_balance: i128,
}

/// What is kept of a player for one epoch.
#[derive(Clone, Copy, Debug, PartialEq, Eq, Structural)]
pub struct EpochPlayer {
    /// The player's faction for this epoch, once locked.
    pub epoch_faction: Option<u32>,
    /// Collateral balance when the player entered the epoch.
    pub epoch_balance_snapshot: i128,
    /// Faction points that can still be wagered.
    pub available_fp: i128,
    /// Faction points held by open wagers.
    pub locked_fp: i128,
    /// Sum of the wagers of the games the player won this epoch.
    pub total_fp_contributed: i128,
}

/// One wagered match between two players.
#[derive(Clone, Copy, Debug, PartialEq, Eq, Structural)]
pub struct GameSession {
    /// The game contract that opened the session.
    pub game_id: Address,
    /// The epoch in which the session was opened.
    pub epoch_id: u32,
    pub player1: Address,
    pub player2: Address,
    pub player1_wager: i128,
    pub player2_wager: i128,
    /// Nothing while the session is pending, then whether player one won.
    pub player1_won: Option<bool>,
}

impl GameSession {
    /// The winner of a settled session.
    pub open spec fn winner(self) -> Address
        recommends
            self.player1_won is Some,
    {
        if self.player1_won == Some(true) {
            self.player1
        } else {
            self.player2
        }
    }

    /// The loser of a settled session.
    pub open spec fn loser(self) -> Address
        recommends
            self.player1_won is Some,
    {
        if self.player1_won == Some(true) {
            self.player2
        } else {
            self.player1
        }
    }

    /// The wager of the winner of a settled session.
    pub open spec fn winner_wager(self) -> i128
        recommends
            self.player1_won is Some,
    {
        if self.player1_won == Some(true) {
            self.player1_wager
        } else {
            self.player2_wager
        }
    }
}

/// Notice that a session was opened.
#[derive(Clone, Copy, Debug, PartialEq, Eq, Structural)]
pub struct GameStarted {
    pub game_id: Address,
    pub session_id: u32,
    pub player1: Address,
    pub player2: Address,
    pub player1_wager: i128,
    pub player2_wager: i128,
    /// Player one's locked faction.
    pub player1_faction: u32,
    /// Player two's locked faction.
    pub player2_faction: u32,
    /// What player one can still wager after this wager was locked.
    pub player1_fp_remaining: i128,
    /// What player two can still wager after this wager was locked.
    pub player2_fp_remaining: i128,
}

/// Notice that a session was settled.
#[derive(Clone, Copy, Debug, PartialEq, Eq, Structural)]
pub struct GameEnded {
    pub game_id: Address,
    pub session_id: u32,
    pub winner: Address,
    pub loser: Address,
    /// The winner's wager, the only amount credited anywhere.
    pub fp_contributed: i128,
}

/// Notice that a reward was paid; also the instruction to pay it.
#[derive(Clone, Copy, Debug, PartialEq, Eq, Structural)]
pub struct RewardsClaimed {
    pub user: Address,
    pub epoch: u32,
    pub faction: u32,
    /// Units of the payout asset owed to `user`.
    pub amount: i128,
}

} // verus!
