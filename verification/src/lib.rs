//! Competitive-economy core of an epoch-based wagering platform.
//!
//! Players align with a faction, wager faction points on head-to-head games,
//! and the winning faction's contributors split the epoch's reward pool in
//! proportion to what they contributed. The crate holds the ledger of epochs,
//! players and sessions, the session lifecycle, and the reward arithmetic.

pub mod auth;
pub mod conservation;
pub mod distribution;
pub mod faction_points;
pub mod game;
pub mod mock;
pub mod rewards;
pub mod standings;
pub mod storage;
pub mod types;
