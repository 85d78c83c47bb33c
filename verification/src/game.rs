//! The game registry and the lifecycle of a wagered session: opened once,
//! settled once, never reopened.

use crate::auth::AuthContext;
use crate::conservation::{
    conserved, lemma_end_game_conserves, lemma_start_game_conserves,
};
use crate::faction_points::{
    enter_epoch, entered, lock_epoch_faction, lock_epoch_faction_spec, lock_fp, lock_fp_spec,
    FundingReport,
};
use crate::standings::{points_of, set_standing, standing, EpochInfoView};
use crate::storage::{
    add_game_to_whitelist, get_admin, get_current_epoch, get_epoch, get_epoch_player, get_player,
    get_session, has_epoch_player, has_session, is_game_whitelisted, remove_game_from_whitelist,
    set_epoch, set_epoch_player, set_player, set_session, DataKey, EpochStore, LedgerState, Record,
};
use crate::types::{Address, EpochPlayer, Error, GameEnded, GameSession, GameStarted};
use vstd::prelude::*;

verus! {

/// Whether the invocation was authorized by the administrator on file.
pub open spec fn admin_invoked(s: LedgerState, auth: &AuthContext) -> bool {
    match s.admin() {
        Some(admin) => auth.invoked_by(admin),
        None => false,
    }
}

fn require_admin(store: &EpochStore, auth: &AuthContext) -> (r: bool)
    ensures
        r == admin_invoked(store@, auth),
{
    match get_admin(store) {
        Some(admin) => auth.require_auth(&admin),
        None => false,
    }
}

/// Puts a game contract on the allow-list. Only the administrator may.
pub fn add_game(store: &mut EpochStore, auth: &AuthContext, game_id: &Address) -> (r: Result<
    (),
    Error,
>)
    ensures
        admin_invoked(old(store)@, auth) ==> r is Ok && final(store)@ == old(store)@.put(
            DataKey::Game(*game_id),
            Record::Game(true),
        ),
        !admin_invoked(old(store)@, auth) ==> r == Err::<(), Error>(Error::NotAdmin)
            && final(store)@ == old(store)@,
{
    if !require_admin(store, auth) {
        return Err(Error::NotAdmin);
    }
    add_game_to_whitelist(store, game_id);
    Ok(())
}

/// Takes a game contract off the allow-list. Only the administrator may.
pub fn remove_game(store: &mut EpochStore, auth: &AuthContext, game_id: &Address) -> (r: Result<
    (),
    Error,
>)
    ensures
        admin_invoked(old(store)@, auth) ==> r is Ok && final(store)@ == old(store)@.without(
            DataKey::Game(*game_id),
        ),
        !admin_invoked(old(store)@, auth) ==> r == Err::<(), Error>(Error::NotAdmin)
            && final(store)@ == old(store)@,
{
    if !require_admin(store, auth) {
        return Err(Error::NotAdmin);
    }
    remove_game_from_whitelist(store, game_id);
    Ok(())
}

/// Whether a contract is an approved game.
pub fn is_game(store: &EpochStore, game_id: &Address) -> (r: bool)
    ensures
        r == store@.whitelisted(*game_id),
{
    is_game_whitelisted(store, game_id)
}

/// The ledger after `player` entered `epoch`: unchanged when the player has
/// a record for the epoch, else with the records that [`entered`] gives.
pub open spec fn initialize_player_epoch_spec(
    s: LedgerState,
    player: Address,
    epoch: u32,
    report: FundingReport,
) -> Result<LedgerState, Error> {
    if s.has(DataKey::EpochPlayer(epoch, player)) {
        Ok(s)
    } else {
        match entered(s.player(player), report) {
            Err(e) => Err(e),
            Ok((p, ep)) => Ok(
                s.put(DataKey::Player(player), Record::Player(p)).put(
                    DataKey::EpochPlayer(epoch, player),
                    Record::EpochPlayer(ep),
                ),
            ),
        }
    }
}

/// Gives a player their record for the epoch on their first game in it.
///
/// Nothing happens when the record exists. Otherwise the player's budget and
/// balance are taken from `report`, and either both of the player's records
/// are written or, on a failure, none.
pub fn initialize_player_epoch(
    store: &mut EpochStore,
    player: &Address,
    current_epoch: u32,
    report: &FundingReport,
) -> (r: Result<(), Error>)
    ensures
        match initialize_player_epoch_spec(old(store)@, *player, current_epoch, *report) {
            Ok(s) => r is Ok && final(store)@ == s,
            Err(e) => r == Err::<(), Error>(e) && final(store)@ == old(store)@,
        },
{
    if has_epoch_player(store, current_epoch, player) {
        return Ok(());
    }
    match enter_epoch(get_player(store, player), report) {
        Err(e) => Err(e),
        Ok((on_file, record)) => {
            set_player(store, player, &on_file);
            set_epoch_player(store, current_epoch, player, &record);
            Ok(())
        },
    }
}

/// Why a game contract's request to open a session is refused before the
/// players are asked: the contract did not authorize the call, is not on the
/// allow-list, the session id is taken, or a wager is not strictly positive.
pub open spec fn session_request_refusal(
    s: LedgerState,
    auth: &AuthContext,
    game_id: Address,
    session_id: u32,
    player1_wager: i128,
    player2_wager: i128,
) -> Option<Error> {
    if !auth.invoked_by(game_id) {
        Some(Error::Unauthorized)
    } else if !s.whitelisted(game_id) {
        Some(Error::GameNotWhitelisted)
    } else if s.has(DataKey::Session(session_id)) {
        Some(Error::SessionAlreadyExists)
    } else if player1_wager <= 0 || player2_wager <= 0 {
        Some(Error::InvalidAmount)
    } else {
        None
    }
}

/// Tests a game contract's request to open a session, as far as it can be
/// tested before the players' authorizations are looked at.
pub fn check_session_request(
    store: &EpochStore,
    auth: &AuthContext,
    game_id: &Address,
    session_id: u32,
    player1_wager: i128,
    player2_wager: i128,
) -> (r: Result<(), Error>)
    ensures
        r == (match session_request_refusal(
            store@,
            auth,
            *game_id,
            session_id,
            player1_wager,
            player2_wager,
        ) {
            Some(e) => Err::<(), Error>(e),
            None => Ok::<(), Error>(()),
        }),
{
    if !auth.require_auth(game_id) {
        return Err(Error::Unauthorized);
    }
    if !is_game_whitelisted(store, game_id) {
        return Err(Error::GameNotWhitelisted);
    }
    if has_session(store, session_id) {
        return Err(Error::SessionAlreadyExists);
    }
    if player1_wager <= 0 || player2_wager <= 0 {
        return Err(Error::InvalidAmount);
    }
    Ok(())
}

/// The first precondition of opening a session that fails, if one does:
/// first those of the request itself, then each player's authorization of
/// exactly their wager in this session of this game, then a faction on file
/// for both.
pub open spec fn start_game_refusal(
    s: LedgerState,
    auth: &AuthContext,
    game_id: Address,
    session_id: u32,
    player1: Address,
    player2: Address,
    player1_wager: i128,
    player2_wager: i128,
) -> Option<Error> {
    match session_request_refusal(s, auth, game_id, session_id, player1_wager, player2_wager) {
        Some(e) => Some(e),
        None => if !auth.wagered_by(player1, game_id, session_id, player1_wager)
            || !auth.wagered_by(player2, game_id, session_id, player2_wager) {
            Some(Error::Unauthorized)
        } else if s.player(player1) is None || s.player(player2) is None {
            Some(Error::FactionNotSelected)
        } else {
            None
        },
    }
}

/// The ledger after both players entered the epoch, had their factions
/// locked and their wagers locked, in that order, player one first.
pub open spec fn wagers_locked(
    s: LedgerState,
    epoch: u32,
    player1: Address,
    player2: Address,
    player1_wager: i128,
    player2_wager: i128,
    report1: FundingReport,
    report2: FundingReport,
) -> Result<LedgerState, Error> {
    match initialize_player_epoch_spec(s, player1, epoch, report1) {
        Err(e) => Err(e),
        Ok(s1) => match initialize_player_epoch_spec(s1, player2, epoch, report2) {
            Err(e) => Err(e),
            Ok(s2) => match lock_epoch_faction_spec(s2, player1, epoch) {
                Err(e) => Err(e),
                Ok(s3) => match lock_epoch_faction_spec(s3, player2, epoch) {
                    Err(e) => Err(e),
                    Ok(s4) => match lock_fp_spec(s4, player1, player1_wager, epoch) {
                        Err(e) => Err(e),
                        Ok(s5) => lock_fp_spec(s5, player2, player2_wager, epoch),
                    },
                },
            },
        },
    }
}

/// What opening a session does: the new ledger and the notice, or the error.
pub open spec fn start_game_spec(
    s: LedgerState,
    auth: &AuthContext,
    game_id: Address,
    session_id: u32,
    player1: Address,
    player2: Address,
    player1_wager: i128,
    player2_wager: i128,
    report1: FundingReport,
    report2: FundingReport,
) -> Result<(LedgerState, GameStarted), Error> {
    match start_game_refusal(
        s,
        auth,
        game_id,
        session_id,
        player1,
        player2,
        player1_wager,
        player2_wager,
    ) {
        Some(e) => Err(e),
        None => {
            let epoch = s.current_epoch();
            match wagers_locked(
                s,
                epoch,
                player1,
                player2,
                player1_wager,
                player2_wager,
                report1,
                report2,
            ) {
                Err(e) => Err(e),
                Ok(locked) => match (
                    locked.epoch_player(epoch, player1),
                    locked.epoch_player(epoch, player2),
                ) {
                    (Some(e1), Some(e2)) => Ok(
                        (
                            locked.put(
                                DataKey::Session(session_id),
                                Record::Session(
                                    GameSession {
                                        game_id,
                                        epoch_id: epoch,
                                        player1,
                                        player2,
                                        player1_wager,
                                        player2_wager,
                                        player1_won: None,
                                    },
                                ),
                            ),
                            GameStarted {
                                game_id,
                                session_id,
                                player1,
                                player2,
                                player1_wager,
                                player2_wager,
                                player1_faction: e1.epoch_faction.unwrap_or(0),
                                player2_faction: e2.epoch_faction.unwrap_or(0),
                                player1_fp_remaining: e1.available_fp,
                                player2_fp_remaining: e2.available_fp,
                            },
                        ),
                    ),
                    _ => Err(Error::PlayerNotFound),
                },
            }
        },
    }
}

/// Whether two ledgers hold the same under every key but the records of the
/// two players, cross-epoch and for `epoch`.
spec fn same_but_players(
    a: LedgerState,
    b: LedgerState,
    epoch: u32,
    player1: Address,
    player2: Address,
) -> bool {
    forall|k: DataKey|
        k != DataKey::Player(player1) && k != DataKey::Player(player2) && k
            != DataKey::EpochPlayer(epoch, player1) && k != DataKey::EpochPlayer(epoch, player2)
            ==> #[trigger] a.records.get(k) == b.records.get(k)
}

fn lock_wagers(
    store: &mut EpochStore,
    epoch: u32,
    player1: &Address,
    player2: &Address,
    player1_wager: i128,
    player2_wager: i128,
    report1: &FundingReport,
    report2: &FundingReport,
) -> (r: Result<(), Error>)
    ensures
        same_but_players(old(store)@, final(store)@, epoch, *player1, *player2),
        match wagers_locked(
            old(store)@,
            epoch,
            *player1,
            *player2,
            player1_wager,
            player2_wager,
            *report1,
            *report2,
        ) {
            Ok(s) => r is Ok && final(store)@ == s,
            Err(e) => r == Err::<(), Error>(e),
        },
{
    initialize_player_epoch(store, player1, epoch, report1)?;
    initialize_player_epoch(store, player2, epoch, report2)?;
    lock_epoch_faction(store, player1, epoch)?;
    lock_epoch_faction(store, player2, epoch)?;
    lock_fp(store, player1, player1_wager, epoch)?;
    lock_fp(store, player2, player2_wager, epoch)?;
    Ok(())
}

/// Opens a session between two players and locks their wagers.
///
/// The game contract must have authorized the invocation and be on the
/// allow-list, the session id must be unused, both wagers strictly positive,
/// each player must have authorized exactly their wager in this session of
/// this game, and both must have a faction on file. Each player then enters
/// the active epoch if this is their first game in it (`report1` and
/// `report2` say with what), has their faction locked for the epoch, and
/// their wager locked against their budget. The session is recorded as
/// pending and the notice carries both factions and what each player can
/// still wager. On any failure the ledger is left as it was.
pub fn start_game(
    store: &mut EpochStore,
    auth: &AuthContext,
    game_id: &Address,
    session_id: u32,
    player1: &Address,
    player2: &Address,
    player1_wager: i128,
    player2_wager: i128,
    report1: &FundingReport,
    report2: &FundingReport,
) -> (r: Result<GameStarted, Error>)
    ensures
        match start_game_spec(
            old(store)@,
            auth,
            *game_id,
            session_id,
            *player1,
            *player2,
            player1_wager,
            player2_wager,
            *report1,
            *report2,
        ) {
            Ok((s, notice)) => r == Ok::<GameStarted, Error>(notice) && final(store)@ == s,
            Err(e) => r == Err::<GameStarted, Error>(e) && final(store)@ == old(store)@,
        },
        forall|epoch: u32| conserved(old(store)@, epoch) ==> conserved(final(store)@, epoch),
{
    check_session_request(store, auth, game_id, session_id, player1_wager, player2_wager)?;
    if !auth.require_auth_for_wager(player1, game_id, session_id, player1_wager)
        || !auth.require_auth_for_wager(player2, game_id, session_id, player2_wager) {
        return Err(Error::Unauthorized);
    }
    if get_player(store, player1).is_none() || get_player(store, player2).is_none() {
        return Err(Error::FactionNotSelected);
    }
    let current_epoch = get_current_epoch(store);

    let key1 = DataKey::Player(*player1);
    let key2 = DataKey::Player(*player2);
    let epoch_key1 = DataKey::EpochPlayer(current_epoch, *player1);
    let epoch_key2 = DataKey::EpochPlayer(current_epoch, *player2);
    let saved1 = store.snapshot(&key1);
    let saved2 = store.snapshot(&key2);
    let epoch_saved1 = store.snapshot(&epoch_key1);
    let epoch_saved2 = store.snapshot(&epoch_key2);

    let locked = lock_wagers(
        store,
        current_epoch,
        player1,
        player2,
        player1_wager,
        player2_wager,
        report1,
        report2,
    );
    let records = (
        get_epoch_player(store, current_epoch, player1),
        get_epoch_player(store, current_epoch, player2),
    );
    match (locked, records) {
        (Ok(()), (Some(e1), Some(e2))) => {
            let session = GameSession {
                game_id: *game_id,
                epoch_id: current_epoch,
                player1: *player1,
                player2: *player2,
                player1_wager,
                player2_wager,
                player1_won: None,
            };
            set_session(store, session_id, &session);
            proof {
                assert forall|epoch: u32| conserved(old(store)@, epoch) implies conserved(
                    store@,
                    epoch,
                ) by {
                    lemma_start_game_conserves(
                        old(store)@,
                        auth,
                        *game_id,
                        session_id,
                        *player1,
                        *player2,
                        player1_wager,
                        player2_wager,
                        *report1,
                        *report2,
                        epoch,
                    );
                }
            }
            Ok(
                GameStarted {
                    game_id: *game_id,
                    session_id,
                    player1: *player1,
                    player2: *player2,
                    player1_wager,
                    player2_wager,
                    player1_faction: match e1.epoch_faction {
                        Some(f) => f,
                        None => 0,
                    },
                    player2_faction: match e2.epoch_faction {
                        Some(f) => f,
                        None => 0,
                    },
                    player1_fp_remaining: e1.available_fp,
                    player2_fp_remaining: e2.available_fp,
                },
            )
        },
        (outcome, _) => {
            let ghost before = old(store)@.records;
            let ghost failed = store@.records;
            store.restore(&key1, saved1);
            let ghost back1 = store@.records;
            store.restore(&key2, saved2);
            let ghost back2 = store@.records;
            store.restore(&epoch_key1, epoch_saved1);
            let ghost back3 = store@.records;
            store.restore(&epoch_key2, epoch_saved2);
            proof {
                assert forall|k: DataKey| store@.records.get(k) == before.get(k) by {
                    assert(back1.get(k) == if k == key1 {
                        before.get(k)
                    } else {
                        failed.get(k)
                    });
                    assert(back2.get(k) == if k == key2 {
                        before.get(k)
                    } else {
                        back1.get(k)
                    });
                    assert(back3.get(k) == if k == epoch_key1 {
                        before.get(k)
                    } else {
                        back2.get(k)
                    });
                    assert(failed.get(k) == before.get(k) || k == key1 || k == key2 || k
                        == epoch_key1 || k == epoch_key2);
                }
                let after = store@.records;
                assert forall|k: DataKey| #[trigger]
                    after.dom().contains(k) == before.dom().contains(k) by {
                    assert(after.get(k) == before.get(k));
                }
                assert forall|k: DataKey| #[trigger] after.dom().contains(k) implies after[k]
                    == before[k] by {
                    assert(after.get(k) == before.get(k));
                }
                assert(after =~= before);
            }
            match outcome {
                Err(e) => Err(e),
                Ok(()) => Err(Error::PlayerNotFound),
            }
        },
    }
}

/// The ledger after `fp_amount` was added to the standing of `winner`'s
/// faction in `epoch`. A faction without a standing starts from zero.
pub open spec fn update_faction_standings_spec(
    s: LedgerState,
    winner: Address,
    fp_amount: i128,
    epoch: u32,
) -> Result<LedgerState, Error> {
    match s.epoch_player(epoch, winner) {
        None => Err(Error::PlayerNotFound),
        Some(record) => match record.epoch_faction {
            None => Err(Error::FactionAlreadyLocked),
            Some(faction) => match s.epoch(epoch) {
                None => Err(Error::EpochNotFinalized),
                Some(info) => {
                    let standing = points_of(info.faction_standings, faction)
                        + fp_amount;
                    if standing > i128::MAX || standing < i128::MIN {
                        Err(Error::OverflowError)
                    } else {
                        Ok(
                            s.put(
                                DataKey::Epoch(epoch),
                                Record::Epoch(
                                    EpochInfoView {
                                        faction_standings: info.faction_standings.insert(
                                            faction,
                                            standing as i128,
                                        ),
                                        ..info
                                    },
                                ),
                            ),
                        )
                    }
                },
            },
        },
    }
}

/// Adds a winner's wager to the standing of the winner's faction.
///
/// Fails with `PlayerNotFound` when the winner has no record for the epoch,
/// `FactionAlreadyLocked` when that record has no faction, `EpochNotFinalized`
/// when the epoch is unknown and `OverflowError` when the standing would
/// overflow; the ledger is then unchanged.
pub fn update_faction_standings(
    store: &mut EpochStore,
    winner: &Address,
    fp_amount: i128,
    current_epoch: u32,
) -> (r: Result<(), Error>)
    ensures
        match update_faction_standings_spec(old(store)@, *winner, fp_amount, current_epoch) {
            Ok(s) => r is Ok && final(store)@ == s,
            Err(e) => r == Err::<(), Error>(e) && final(store)@ == old(store)@,
        },
{
    let record = match get_epoch_player(store, current_epoch, winner) {
        None => {
            return Err(Error::PlayerNotFound);
        },
        Some(record) => record,
    };
    let faction = match record.epoch_faction {
        None => {
            return Err(Error::FactionAlreadyLocked);
        },
        Some(faction) => faction,
    };
    let mut info = match get_epoch(store, current_epoch) {
        None => {
            return Err(Error::EpochNotFinalized);
        },
        Some(info) => info,
    };
    let current_standing: i128 = match standing(&info.faction_standings, faction) {
        Some(points) => points,
        None => 0,
    };
    let new_standing: i128 = match current_standing.checked_add(fp_amount) {
        None => {
            return Err(Error::OverflowError);
        },
        Some(points) => points,
    };
    set_standing(&mut info.faction_standings, faction, new_standing);
    set_epoch(store, current_epoch, &info);
    Ok(())
}

/// What settling a session does: the new ledger and the notice, or the error.
///
/// Only the winner's wager has any effect: it is added to the winner's
/// contribution and to the standing of the winner's faction. The loser's
/// wager is credited nowhere. Both participants' locks are released.
pub open spec fn end_game_spec(
    s: LedgerState,
    auth: &AuthContext,
    session_id: u32,
    player1_won: bool,
) -> Result<(LedgerState, GameEnded), Error> {
    match s.session(session_id) {
        None => Err(Error::SessionNotFound),
        Some(session) => if !auth.invoked_by(session.game_id) {
            Err(Error::Unauthorized)
        } else if session.player1_won is Some {
            Err(Error::InvalidSessionState)
        } else if session.epoch_id != s.current_epoch() {
            Err(Error::GameExpired)
        } else {
            let epoch = s.current_epoch();
            let settled = GameSession { player1_won: Some(player1_won), ..session };
            let winner = settled.winner();
            let loser = settled.loser();
            let wager = settled.winner_wager();
            match s.epoch_player(epoch, winner) {
                None => Err(Error::PlayerNotFound),
                Some(record) => match record.credited(wager) {
                    Err(e) => Err(e),
                    Ok(credited) => match update_faction_standings_spec(s, winner, wager, epoch) {
                        Err(e) => Err(e),
                        Ok(counted) => {
                            let released = match counted.epoch_player(epoch, loser) {
                                Some(l) => counted.put(
                                    DataKey::EpochPlayer(epoch, loser),
                                    Record::EpochPlayer(l.released()),
                                ),
                                None => counted,
                            };
                            Ok(
                                (
                                    released.put(
                                        DataKey::EpochPlayer(epoch, winner),
                                        Record::EpochPlayer(credited.released()),
                                    ).put(DataKey::Session(session_id), Record::Session(settled)),
                                    GameEnded {
                                        game_id: session.game_id,
                                        session_id,
                                        winner,
                                        loser,
                                        fp_contributed: wager,
                                    },
                                ),
                            )
                        },
                    },
                },
            }
        },
    }
}

/// Settles a pending session with its outcome.
///
/// The session must exist (`SessionNotFound`), the game contract that opened
/// it must have authorized the invocation (`Unauthorized`), it must still be
/// pending (`InvalidSessionState`) and belong to the active epoch
/// (`GameExpired`). The winner's wager is added, with checked addition, to
/// the winner's contribution and to the standing of the winner's faction;
/// the loser's wager is credited nowhere and never refunded. The locks of
/// both participants are released and the session becomes terminal. On any
/// failure the ledger is left as it was.
pub fn end_game(store: &mut EpochStore, auth: &AuthContext, session_id: u32, player1_won: bool) -> (r:
    Result<GameEnded, Error>)
    ensures
        match end_game_spec(old(store)@, auth, session_id, player1_won) {
            Ok((s, notice)) => r == Ok::<GameEnded, Error>(notice) && final(store)@ == s,
            Err(e) => r == Err::<GameEnded, Error>(e) && final(store)@ == old(store)@,
        },
        forall|epoch: u32| conserved(old(store)@, epoch) ==> conserved(final(store)@, epoch),
{
    let session = match get_session(store, session_id) {
        None => {
            return Err(Error::SessionNotFound);
        },
        Some(session) => session,
    };
    if !auth.require_auth(&session.game_id) {
        return Err(Error::Unauthorized);
    }
    if session.player1_won.is_some() {
        return Err(Error::InvalidSessionState);
    }
    let current_epoch = get_current_epoch(store);
    if session.epoch_id != current_epoch {
        return Err(Error::GameExpired);
    }
    let (winner, loser, winner_wager) = if player1_won {
        (session.player1, session.player2, session.player1_wager)
    } else {
        (session.player2, session.player1, session.player2_wager)
    };
    let record = match get_epoch_player(store, current_epoch, &winner) {
        None => {
            return Err(Error::PlayerNotFound);
        },
        Some(record) => record,
    };
    let credited = match record.credit(winner_wager) {
        Err(e) => {
            return Err(e);
        },
        Ok(credited) => credited,
    };
    update_faction_standings(store, &winner, winner_wager, current_epoch)?;
    match get_epoch_player(store, current_epoch, &loser) {
        Some(l) => set_epoch_player(store, current_epoch, &loser, &l.release()),
        None => {},
    }
    set_epoch_player(store, current_epoch, &winner, &credited.release());
    let settled = GameSession {
        game_id: session.game_id,
        epoch_id: session.epoch_id,
        player1: session.player1,
        player2: session.player2,
        player1_wager: session.player1_wager,
        player2_wager: session.player2_wager,
        player1_won: Some(player1_won),
    };
    set_session(store, session_id, &settled);
    proof {
        assert forall|epoch: u32| conserved(old(store)@, epoch) implies conserved(
            store@,
            epoch,
        ) by {
            lemma_end_game_conserves(old(store)@, auth, session_id, player1_won, epoch);
        }
    }
    Ok(GameEnded { game_id: session.game_id, session_id, winner, loser, fp_contributed: winner_wager })
}

/// Wager validation: a wager that is zero or negative opens no session and
/// leaves the ledger alone; the failure is `InvalidAmount` whenever the game
/// contract authorized the call, is on the allow-list and the session id is
/// unused.
pub proof fn lemma_wager_validation(
    s: LedgerState,
    auth: &AuthContext,
    game_id: Address,
    session_id: u32,
    player1: Address,
    player2: Address,
    player1_wager: i128,
    player2_wager: i128,
    report1: FundingReport,
    report2: FundingReport,
)
    requires
        player1_wager <= 0 || player2_wager <= 0,
    ensures
        ({
            let outcome = start_game_spec(
                s,
                auth,
                game_id,
                session_id,
                player1,
                player2,
                player1_wager,
                player2_wager,
                report1,
                report2,
            );
            &&& outcome is Err
            &&& auth.invoked_by(game_id) && s.whitelisted(game_id) && !s.has(
                DataKey::Session(session_id),
            ) ==> outcome == Err::<(LedgerState, GameStarted), Error>(Error::InvalidAmount)
        }),
{
}

/// A session id is used once: while a record is kept under it, opening a
/// session with that id fails and changes nothing.
pub proof fn lemma_session_id_unique(
    s: LedgerState,
    auth: &AuthContext,
    game_id: Address,
    session_id: u32,
    player1: Address,
    player2: Address,
    player1_wager: i128,
    player2_wager: i128,
    report1: FundingReport,
    report2: FundingReport,
)
    requires
        s.has(DataKey::Session(session_id)),
    ensures
        ({
            let outcome = start_game_spec(
                s,
                auth,
                game_id,
                session_id,
                player1,
                player2,
                player1_wager,
                player2_wager,
                report1,
                report2,
            );
            &&& outcome is Err
            &&& auth.invoked_by(game_id) && s.whitelisted(game_id) ==> outcome == Err::<
                (LedgerState, GameStarted),
                Error,
            >(Error::SessionAlreadyExists)
        }),
{
}

/// An opened session is pending, in the active epoch, with the wagers given.
pub proof fn lemma_started_session_pending(
    s: LedgerState,
    auth: &AuthContext,
    game_id: Address,
    session_id: u32,
    player1: Address,
    player2: Address,
    player1_wager: i128,
    player2_wager: i128,
    report1: FundingReport,
    report2: FundingReport,
)
    requires
        start_game_spec(
            s,
            auth,
            game_id,
            session_id,
            player1,
            player2,
            player1_wager,
            player2_wager,
            report1,
            report2,
        ) is Ok,
    ensures
        ({
            let after = start_game_spec(
                s,
                auth,
                game_id,
                session_id,
                player1,
                player2,
                player1_wager,
                player2_wager,
                report1,
                report2,
            )->Ok_0.0;
            &&& player1_wager > 0 && player2_wager > 0
            &&& after.session(session_id) == Some(
                GameSession {
                    game_id,
                    epoch_id: s.current_epoch(),
                    player1,
                    player2,
                    player1_wager,
                    player2_wager,
                    player1_won: None,
                },
            )
            &&& forall|other: u32| other != session_id ==> after.session(other) == s.session(other)
        }),
{
}

/// No double settlement: once a session is settled, settling it again
/// fails, with `InvalidSessionState` when the session's game contract
/// authorized the call and `Unauthorized` when it did not. A failed call
/// leaves the ledger, and so the standings, as they were.
pub proof fn lemma_no_double_settlement(
    s: LedgerState,
    first: &AuthContext,
    second: &AuthContext,
    session_id: u32,
    first_outcome: bool,
    second_outcome: bool,
)
    requires
        end_game_spec(s, first, session_id, first_outcome) is Ok,
    ensures
        ({
            let after = end_game_spec(s, first, session_id, first_outcome)->Ok_0.0;
            let again = end_game_spec(after, second, session_id, second_outcome);
            let game_id = s.session(session_id)->Some_0.game_id;
            &&& after.session(session_id)->Some_0.player1_won == Some(first_outcome)
            &&& again is Err
            &&& second.invoked_by(game_id) ==> again == Err::<(LedgerState, GameEnded), Error>(
                Error::InvalidSessionState,
            )
            &&& !second.invoked_by(game_id) ==> again == Err::<(LedgerState, GameEnded), Error>(
                Error::Unauthorized,
            )
        }),
{
}

/// Only the session's own game contract settles it: without its
/// authorization settling fails with `Unauthorized`, whatever else holds.
pub proof fn lemma_only_game_settles(
    s: LedgerState,
    auth: &AuthContext,
    session_id: u32,
    player1_won: bool,
)
    requires
        s.session(session_id) is Some,
        !auth.invoked_by(s.session(session_id)->Some_0.game_id),
    ensures
        end_game_spec(s, auth, session_id, player1_won) == Err::<(LedgerState, GameEnded), Error>(
            Error::Unauthorized,
        ),
{
}

/// The winner takes the credit and the loser none: settling adds exactly
/// the winner's wager to the winner's contribution, leaves the contribution
/// of everyone else, the loser included, as it was, and releases the locks
/// of both participants.
pub proof fn lemma_winner_credited(
    s: LedgerState,
    auth: &AuthContext,
    session_id: u32,
    player1_won: bool,
    other: Address,
)
    requires
        end_game_spec(s, auth, session_id, player1_won) is Ok,
    ensures
        ({
            let (after, notice) = end_game_spec(s, auth, session_id, player1_won)->Ok_0;
            let session = s.session(session_id)->Some_0;
            let epoch = s.current_epoch();
            let winner = if player1_won {
                session.player1
            } else {
                session.player2
            };
            let loser = if player1_won {
                session.player2
            } else {
                session.player1
            };
            let wager = if player1_won {
                session.player1_wager
            } else {
                session.player2_wager
            };
            &&& notice.winner == winner && notice.loser == loser && notice.fp_contributed == wager
            &&& after.epoch_player(epoch, winner) is Some
            &&& after.epoch_player(epoch, winner)->Some_0.total_fp_contributed == s.epoch_player(
                epoch,
                winner,
            )->Some_0.total_fp_contributed + wager
            &&& after.epoch_player(epoch, winner)->Some_0.locked_fp == 0
            &&& other != winner ==> (after.epoch_player(epoch, other) is Some) == (s.epoch_player(
                epoch,
                other,
            ) is Some)
            &&& other != winner && s.epoch_player(epoch, other) is Some ==> after.epoch_player(
                epoch,
                other,
            )->Some_0.total_fp_contributed == s.epoch_player(
                epoch,
                other,
            )->Some_0.total_fp_contributed
            &&& other == loser && after.epoch_player(epoch, other) is Some ==> after.epoch_player(
                epoch,
                other,
            )->Some_0.locked_fp == 0
        }),
{
}

/// Opening a session changes no faction that is locked and no
/// contribution, in any epoch, and leaves every other session as it was.
pub proof fn lemma_start_game_keeps_factions(
    s: LedgerState,
    auth: &AuthContext,
    game_id: Address,
    session_id: u32,
    player1: Address,
    player2: Address,
    player1_wager: i128,
    player2_wager: i128,
    report1: FundingReport,
    report2: FundingReport,
    epoch: u32,
    user: Address,
)
    requires
        start_game_spec(
            s,
            auth,
            game_id,
            session_id,
            player1,
            player2,
            player1_wager,
            player2_wager,
            report1,
            report2,
        ) is Ok,
        s.epoch_player(epoch, user) is Some,
    ensures
        ({
            let after = start_game_spec(
                s,
                auth,
                game_id,
                session_id,
                player1,
                player2,
                player1_wager,
                player2_wager,
                report1,
                report2,
            )->Ok_0.0;
            let before = s.epoch_player(epoch, user)->Some_0;
            &&& after.epoch_player(epoch, user) is Some
            &&& before.epoch_faction is Some ==> after.epoch_player(epoch, user)->Some_0.epoch_faction
                == before.epoch_faction
            &&& after.epoch_player(epoch, user)->Some_0.total_fp_contributed
                == before.total_fp_contributed
        }),
{
}

/// Settling a session changes no faction, in any epoch, touches no other
/// session, and changes nothing of the settled session but its outcome.
pub proof fn lemma_end_game_keeps_factions(
    s: LedgerState,
    auth: &AuthContext,
    session_id: u32,
    player1_won: bool,
    epoch: u32,
    user: Address,
    other: u32,
)
    requires
        end_game_spec(s, auth, session_id, player1_won) is Ok,
    ensures
        ({
            let after = end_game_spec(s, auth, session_id, player1_won)->Ok_0.0;
            &&& (after.epoch_player(epoch, user) is Some) == (s.epoch_player(epoch, user) is Some)
            &&& s.epoch_player(epoch, user) is Some ==> after.epoch_player(
                epoch,
                user,
            )->Some_0.epoch_faction == s.epoch_player(epoch, user)->Some_0.epoch_faction
            &&& other != session_id ==> after.session(other) == s.session(other)
            &&& after.session(session_id) == Some(
                GameSession { player1_won: Some(player1_won), ..s.session(session_id)->Some_0 },
            )
        }),
{
}

} // verus!
