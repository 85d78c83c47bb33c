use blendizzard::auth::{AuthContext, Authorization};
use blendizzard::faction_points::FundingReport;
use blendizzard::game::{add_game, end_game, is_game, remove_game, start_game};
use blendizzard::rewards::{claim_epoch_reward, get_claimable_amount, has_claimed_rewards};
use blendizzard::standings::EpochInfo;
use soroban_sdk::Env;
use blendizzard::storage::{
    get_current_epoch, get_epoch, get_epoch_player, get_session, set_admin, set_current_epoch,
    set_epoch, set_player, EpochStore,
};
use blendizzard::types::{Address, Error, GameSession, Player};

const EPOCH_DURATION: u64 = 345_600;
const START: u64 = 1_441_065_600;

fn account(n: u128) -> Address {
    Address { contract: false, hi: 0, lo: n }
}

fn contract(n: u128) -> Address {
    Address { contract: true, hi: 0, lo: n }
}

fn new_epoch(start: u64) -> EpochInfo {
    EpochInfo {
        start_time: start,
        end_time: start + EPOCH_DURATION,
        faction_standings: soroban_sdk::Map::new(&Env::default()),
        reward_pool: 0,
        winning_faction: None,
        is_finalized: false,
    }
}

fn by(signer: Address) -> AuthContext {
    let mut auth = AuthContext::new();
    auth.grant(Authorization::Invocation { signer });
    auth
}

/// A ledger with an administrator, epoch zero open and one listed game.
fn setup() -> (EpochStore, Address, Address) {
    let admin = account(1);
    let game = contract(100);
    let mut store = EpochStore::new();
    set_admin(&mut store, &admin);
    set_current_epoch(&mut store, 0);
    set_epoch(&mut store, 0, &new_epoch(START));
    add_game(&mut store, &by(admin), &game).unwrap();
    (store, admin, game)
}

fn select_faction(store: &mut EpochStore, player: &Address, faction: u32) {
    set_player(
        store,
        player,
        &Player { selected_faction: faction, time_multiplier_start: 0, last_epoch_balance: 0 },
    );
}

fn report(balance: i128) -> FundingReport {
    FundingReport {
        vault_balance: balance,
        timestamp: START,
        withdrawal_reset: Ok(false),
        epoch_fp: Ok(balance),
    }
}

fn open(
    store: &mut EpochStore,
    game: &Address,
    session_id: u32,
    first: (&Address, i128, i128),
    second: (&Address, i128, i128),
) -> Result<blendizzard::types::GameStarted, Error> {
    let mut auth = by(*game);
    auth.grant(Authorization::Wager { signer: *first.0, game_id: *game, session_id, wager: first.2 });
    auth.grant(Authorization::Wager { signer: *second.0, game_id: *game, session_id, wager: second.2 });
    start_game(store, &auth, game, session_id, first.0, second.0, first.2, second.2, &report(first.1), &report(second.1))
}

fn winner_of(session: &GameSession) -> Address {
    if session.player1_won == Some(true) {
        session.player1
    } else {
        session.player2
    }
}

fn integration_with_outcome(player1_won: bool) {
    let (mut store, _admin, game) = setup();
    let player1 = account(11);
    let player2 = account(12);
    let balance1 = 1000_0000000;
    let balance2 = 500_0000000;
    select_faction(&mut store, &player1, 0);
    select_faction(&mut store, &player2, 1);

    let session_id = 1u32;
    let wager1 = 100_0000000;
    let wager2 = 50_0000000;
    open(&mut store, &game, session_id, (&player1, balance1, wager1), (&player2, balance2, wager2))
        .unwrap();

    let epoch1_record = get_epoch_player(&store, 0, &player1).unwrap();
    let epoch2_record = get_epoch_player(&store, 0, &player2).unwrap();
    assert_eq!(epoch1_record.locked_fp, wager1, "Player 1 wager should be locked");
    assert_eq!(epoch2_record.locked_fp, wager2, "Player 2 wager should be locked");

    let ended = end_game(&mut store, &by(game), session_id, player1_won).unwrap();
    let winner = ended.winner;
    let loser = if winner == player1 { player2 } else { player1 };
    assert_eq!(ended.loser, loser);
    let winner_epoch = get_epoch_player(&store, 0, &winner).unwrap();
    let loser_epoch = get_epoch_player(&store, 0, &loser).unwrap();
    assert_eq!(winner_epoch.locked_fp, 0, "Winner's FP should be unlocked");
    assert_eq!(loser_epoch.locked_fp, 0, "Loser's FP should be unlocked");

    let winner_wager = if winner == player1 { wager1 } else { wager2 };
    assert_eq!(
        winner_epoch.total_fp_contributed, winner_wager,
        "Winner's FP contribution should equal their wager"
    );

    let epoch_info = get_epoch(&store, get_current_epoch(&store)).unwrap();
    let winner_faction = winner_epoch.epoch_faction.unwrap();
    let faction_fp = epoch_info.faction_standings.get(winner_faction).unwrap();
    assert_eq!(faction_fp, winner_wager, "Winner's faction FP should be updated");
}

#[test]
fn test_number_guess_game_integration() {
    integration_with_outcome(true);
    integration_with_outcome(false);
}

#[test]
fn test_multiple_number_guess_games() {
    let (mut store, _admin, game) = setup();
    let player1 = account(11);
    let player2 = account(12);
    let player3 = account(13);
    let player4 = account(14);
    select_faction(&mut store, &player1, 0);
    select_faction(&mut store, &player2, 1);
    select_faction(&mut store, &player3, 0);
    select_faction(&mut store, &player4, 2);

    let balance = 1000_0000000;
    let wager = 100_0000000;
    open(&mut store, &game, 1, (&player1, balance, wager), (&player2, balance, wager)).unwrap();
    open(&mut store, &game, 2, (&player3, balance, wager), (&player4, balance, wager)).unwrap();
    end_game(&mut store, &by(game), 1, true).unwrap();
    end_game(&mut store, &by(game), 2, false).unwrap();

    let epoch_info = get_epoch(&store, 0).unwrap();
    let mut total_faction_fp = 0i128;
    for faction_id in 0..=2 {
        if let Some(fp) = epoch_info.faction_standings.get(faction_id) {
            total_faction_fp += fp;
        }
    }
    assert!(total_faction_fp >= wager, "Factions should have accumulated FP from games");
    assert_eq!(total_faction_fp, 2 * wager);
    assert_eq!(epoch_info.faction_standings.get(0), Some(wager));
    assert_eq!(epoch_info.faction_standings.get(1), None);
    assert_eq!(epoch_info.faction_standings.get(2), Some(wager));
}

#[test]
fn test_cannot_use_unregistered_game() {
    let (mut store, _admin, _game) = setup();
    let player1 = account(11);
    let player2 = account(12);
    select_faction(&mut store, &player1, 0);
    select_faction(&mut store, &player2, 1);

    let fake_game = contract(999);
    let result = open(
        &mut store,
        &fake_game,
        1,
        (&player1, 1000_0000000, 100_0000000),
        (&player2, 1000_0000000, 100_0000000),
    );
    assert_eq!(result, Err(Error::GameNotWhitelisted));
    assert_eq!(get_session(&store, 1), None);
    assert_eq!(get_epoch_player(&store, 0, &player1), None);
}

#[test]
fn test_game_can_be_removed_from_registry() {
    let (mut store, admin, game) = setup();
    assert!(is_game(&store, &game));
    remove_game(&mut store, &by(admin), &game).unwrap();
    assert!(!is_game(&store, &game));
}

fn loser_fp_with_outcome(player1_won: bool) {
    let (mut store, _admin, game) = setup();
    let player1 = account(11);
    let player2 = account(12);
    select_faction(&mut store, &player1, 0);
    select_faction(&mut store, &player2, 1);

    let session_id = 10u32;
    let wager1 = 100_0000000;
    let wager2 = 50_0000000;
    open(&mut store, &game, session_id, (&player1, 1000_0000000, wager1), (&player2, 1000_0000000, wager2))
        .unwrap();
    let ended = end_game(&mut store, &by(game), session_id, player1_won).unwrap();

    let loser = if ended.winner == player1 { player2 } else { player1 };
    let loser_after = get_epoch_player(&store, 0, &loser).unwrap();
    assert_eq!(loser_after.locked_fp, 0, "Loser's FP should be unlocked after game");
    assert_eq!(loser_after.total_fp_contributed, 0, "Loser should have no FP contribution");
    let loser_wager = if loser == player1 { wager1 } else { wager2 };
    assert_eq!(loser_after.available_fp, 1000_0000000 - loser_wager);
}

#[test]
fn test_loser_fp_is_deducted() {
    loser_fp_with_outcome(true);
    loser_fp_with_outcome(false);
}

fn winner_and_loser_with_outcome(player1_won: bool) {
    let (mut store, _admin, game) = setup();
    let player1 = account(11);
    let player2 = account(12);
    select_faction(&mut store, &player1, 0);
    select_faction(&mut store, &player2, 1);

    let session_id = 11u32;
    let wager = 100_0000000;
    open(&mut store, &game, session_id, (&player1, 1000_0000000, wager), (&player2, 1000_0000000, wager))
        .unwrap();

    let during1 = get_epoch_player(&store, 0, &player1).unwrap();
    let during2 = get_epoch_player(&store, 0, &player2).unwrap();
    assert_eq!(during1.locked_fp, wager);
    assert_eq!(during2.locked_fp, wager);

    let ended = end_game(&mut store, &by(game), session_id, player1_won).unwrap();
    let winner = ended.winner;
    let winner_final = get_epoch_player(&store, 0, &winner).unwrap();
    let loser = if winner == player1 { player2 } else { player1 };
    let loser_final = get_epoch_player(&store, 0, &loser).unwrap();

    assert_eq!(winner_final.locked_fp, 0, "Winner FP should be unlocked");
    assert_eq!(loser_final.locked_fp, 0, "Loser FP should be unlocked");
    assert_eq!(winner_final.total_fp_contributed, wager, "Winner should have contribution");
    assert_eq!(loser_final.total_fp_contributed, 0, "Loser should have no contribution");
}

#[test]
fn test_winner_fp_returned_loser_fp_spent() {
    winner_and_loser_with_outcome(true);
    winner_and_loser_with_outcome(false);
}

fn asymmetric_with_outcome(player1_won: bool) {
    let (mut store, _admin, game) = setup();
    let player1 = account(11);
    let player2 = account(12);
    select_faction(&mut store, &player1, 0);
    select_faction(&mut store, &player2, 1);

    let wager1 = 200_0000000;
    let wager2 = 50_0000000;
    let session_id = 12u32;
    open(&mut store, &game, session_id, (&player1, 1000_0000000, wager1), (&player2, 1000_0000000, wager2))
        .unwrap();

    let locked1 = get_epoch_player(&store, 0, &player1).unwrap();
    let locked2 = get_epoch_player(&store, 0, &player2).unwrap();
    assert_eq!(locked1.locked_fp, wager1, "Player1 should have 200 FP locked");
    assert_eq!(locked2.locked_fp, wager2, "Player2 should have 50 FP locked");

    let ended = end_game(&mut store, &by(game), session_id, player1_won).unwrap();
    let winner = ended.winner;
    let winner_final = get_epoch_player(&store, 0, &winner).unwrap();
    let (loser, winner_wager, _loser_wager) =
        if winner == player1 { (player2, wager1, wager2) } else { (player1, wager2, wager1) };
    let loser_final = get_epoch_player(&store, 0, &loser).unwrap();
    assert_eq!(
        winner_final.total_fp_contributed, winner_wager,
        "Winner contribution should match their wager"
    );
    assert_eq!(loser_final.total_fp_contributed, 0, "Loser should have no contribution");
    assert_eq!(winner_final.locked_fp, 0);
    assert_eq!(loser_final.locked_fp, 0);
}

#[test]
fn number_guess_integration_test_asymmetric_wagers() {
    asymmetric_with_outcome(true);
    asymmetric_with_outcome(false);
}

#[test]
fn number_guess_integration_test_tie_game_player1_wins() {
    let (mut store, _admin, game) = setup();
    let player1 = account(11);
    let player2 = account(12);
    select_faction(&mut store, &player1, 0);
    select_faction(&mut store, &player2, 1);

    let session_id = 15u32;
    open(
        &mut store,
        &game,
        session_id,
        (&player1, 1000_0000000, 100_0000000),
        (&player2, 1000_0000000, 100_0000000),
    )
    .unwrap();

    // A tie goes to player one, so the game reports that player one won.
    let ended = end_game(&mut store, &by(game), session_id, true).unwrap();
    assert_eq!(ended.winner, player1, "Player1 should win in tie games");
    assert_eq!(winner_of(&get_session(&store, session_id).unwrap()), player1);

    let epoch1_record = get_epoch_player(&store, 0, &player1).unwrap();
    assert_eq!(epoch1_record.total_fp_contributed, 100_0000000);
}

#[test]
fn test_abandoned_game_fp_stays_locked() {
    let (mut store, _admin, game) = setup();
    let player1 = account(11);
    let player2 = account(12);
    select_faction(&mut store, &player1, 0);
    select_faction(&mut store, &player2, 1);

    let session_id = 16u32;
    let wager = 100_0000000;
    open(&mut store, &game, session_id, (&player1, 1000_0000000, wager), (&player2, 1000_0000000, wager))
        .unwrap();

    let epoch1_record = get_epoch_player(&store, 0, &player1).unwrap();
    let epoch2_record = get_epoch_player(&store, 0, &player2).unwrap();
    assert_eq!(epoch1_record.locked_fp, wager, "Player1 FP should remain locked");
    assert_eq!(epoch2_record.locked_fp, wager, "Player2 FP should remain locked");
    assert_eq!(epoch1_record.total_fp_contributed, 0, "No contribution from abandoned game");
    assert_eq!(epoch2_record.total_fp_contributed, 0, "No contribution from abandoned game");
    assert_eq!(get_session(&store, session_id).unwrap().player1_won, None);
}

/// Closes the active epoch the way the rollover does: the faction with the
/// most points wins, the pool is funded, and the next epoch opens.
fn cycle_epoch(store: &mut EpochStore, reward_pool: i128, now: u64) {
    let current = get_current_epoch(store);
    let mut info = get_epoch(store, current).unwrap();
    let mut best: Option<(u32, i128)> = None;
    for faction in 0..=2u32 {
        let points = info.faction_standings.get(faction).unwrap_or(0);
        if best.map_or(true, |(_, most)| points > most) {
            best = Some((faction, points));
        }
    }
    info.winning_faction = best.map(|(faction, _)| faction);
    info.reward_pool = reward_pool;
    info.is_finalized = true;
    set_epoch(store, current, &info);
    set_current_epoch(store, current + 1);
    set_epoch(store, current + 1, &new_epoch(now));
}

#[test]
fn test_full_epoch_cycle_with_rewards() {
    let (mut store, _admin, game) = setup();
    let player1 = account(11);
    let player2 = account(12);
    let player3 = account(13);
    let player4 = account(14);
    select_faction(&mut store, &player1, 0);
    select_faction(&mut store, &player2, 1);
    select_faction(&mut store, &player3, 0);
    select_faction(&mut store, &player4, 2);

    let balance = 1000_0000000;
    let wager = 100_0000000;

    open(&mut store, &game, 20, (&player1, balance, wager), (&player2, balance, wager)).unwrap();
    let winner1 = end_game(&mut store, &by(game), 20, true).unwrap().winner;
    open(&mut store, &game, 21, (&player3, balance, wager), (&player4, balance, wager)).unwrap();
    let winner2 = end_game(&mut store, &by(game), 21, false).unwrap().winner;
    open(&mut store, &game, 22, (&player1, balance, wager), (&player4, balance, wager)).unwrap();
    let winner3 = end_game(&mut store, &by(game), 22, true).unwrap().winner;
    assert_eq!((winner1, winner2, winner3), (player1, player4, player1));

    let epoch0 = get_epoch(&store, 0).unwrap();
    let wholenoodle_fp = epoch0.faction_standings.get(0).unwrap_or(0);
    let pointystick_fp = epoch0.faction_standings.get(1).unwrap_or(0);
    let specialrock_fp = epoch0.faction_standings.get(2).unwrap_or(0);
    let total_fp_contributed = wholenoodle_fp + pointystick_fp + specialrock_fp;
    assert!(total_fp_contributed >= wager, "Factions should have accumulated FP");
    assert_eq!(total_fp_contributed, 3 * wager);

    let reward_pool = 5000_0000000;
    cycle_epoch(&mut store, reward_pool, START + EPOCH_DURATION + 1);

    let epoch0_final = get_epoch(&store, 0).unwrap();
    assert!(epoch0_final.is_finalized, "Epoch 0 should be finalized");
    assert_eq!(get_current_epoch(&store), 1, "Should be in epoch 1");
    let winning_faction = epoch0_final.winning_faction.expect("Should have a winning faction");
    let expected_winner = if wholenoodle_fp >= pointystick_fp && wholenoodle_fp >= specialrock_fp {
        0
    } else if pointystick_fp >= wholenoodle_fp && pointystick_fp >= specialrock_fp {
        1
    } else {
        2
    };
    assert_eq!(winning_faction, expected_winner, "Winning faction should be the one with most FP");

    // what the platform and each player hold of the payout asset
    let mut platform_usdc = reward_pool;
    let mut usdc = [0i128; 4];
    let mut total_claimed = 0i128;
    for (seat, player) in [player1, player2, player3, player4].into_iter().enumerate() {
        let player_epoch = get_epoch_player(&store, 0, &player).unwrap();
        let player_faction = player_epoch.epoch_faction.unwrap();
        if player_faction == winning_faction && player_epoch.total_fp_contributed > 0 {
            let preview = get_claimable_amount(&store, &player, 0);
            let usdc_before = usdc[seat];
            let claimed = claim_epoch_reward(&mut store, &by(player), &player, 0).unwrap();
            assert_eq!(claimed.user, player);
            assert!(claimed.amount <= platform_usdc);
            platform_usdc -= claimed.amount;
            usdc[seat] += claimed.amount;
            let usdc_after = usdc[seat];
            assert!(claimed.amount > 0, "Winner should receive USDC rewards");
            assert_eq!(
                usdc_after,
                usdc_before + claimed.amount,
                "USDC balance should increase by claimed amount"
            );
            assert_eq!(claimed.amount, preview);
            assert!(has_claimed_rewards(&store, &player, 0), "Claim should be recorded");
            let double_claim_result = claim_epoch_reward(&mut store, &by(player), &player, 0);
            assert!(double_claim_result.is_err(), "Should not be able to claim twice");
            total_claimed += claimed.amount;
        } else {
            assert_eq!(get_claimable_amount(&store, &player, 0), 0);
        }
    }
    assert!(total_claimed <= reward_pool, "Total claimed rewards should not exceed reward pool");
    assert_eq!(total_claimed, reward_pool);
    assert_eq!(platform_usdc, reward_pool - total_claimed);
    assert_eq!(usdc, [reward_pool, 0, 0, 0]);

    // The players can play again in the new epoch.
    open(&mut store, &game, 23, (&player1, balance, wager), (&player2, balance, wager)).unwrap();
    end_game(&mut store, &by(game), 23, false).unwrap();
    assert_eq!(get_current_epoch(&store), 1);
    let epoch1_after_game = get_epoch(&store, 1).unwrap();
    let epoch1_total_fp: i128 =
        (0..=2).filter_map(|faction_id| epoch1_after_game.faction_standings.get(faction_id)).sum();
    assert!(epoch1_total_fp >= wager, "Epoch 1 should have FP from new games");
}
