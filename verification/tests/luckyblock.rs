use wager_engine::ledger::Ledger;
use wager_engine::luckyblock::{
    create_round, draw_winner, enter_round, initialize, resolve_round, ErrorCode, GameState,
    PlayerData, Round, RoundState, MAX_PLAYERS, MIN_PLAYERS,
};

const AUTHORITY: usize = 0;
const HOUSE: usize = 1;
const ESCROW: usize = 2;
const REFERRER: usize = 3;
const FIRST_PLAYER: usize = 4;

// A ledger with `players` stake accounts of `stake` each, after the house,
// escrow and referrer accounts.
fn setup(players: usize, stake: u64) -> (Ledger, GameState, Round, Vec<PlayerData>) {
    let mut l = Ledger::new(FIRST_PLAYER + players);
    let gs = initialize(AUTHORITY, HOUSE);
    let round = create_round(&gs, &l, ESCROW, 1_000);
    let mut data = Vec::new();
    for k in 0..players {
        assert!(l.fund(FIRST_PLAYER + k, stake).is_ok());
        data.push(PlayerData::new(FIRST_PLAYER + k));
    }
    (l, gs, round, data)
}

#[test]
fn initialize_starts_at_round_one() {
    let gs = initialize(AUTHORITY, HOUSE);
    assert_eq!(gs.current_round, 1);
    assert_eq!(gs.total_wagered, 0);
    assert_eq!(gs.total_rounds, 0);
    assert_eq!(gs.wager_count, 0);
}

#[test]
fn created_round_is_open_and_empty() {
    let (_, _, round, _) = setup(0, 0);
    assert_eq!(round.id, 1);
    assert!(matches!(round.state, RoundState::Open));
    assert_eq!(round.pot, 0);
    assert_eq!(round.player_count, 0);
    assert_eq!(round.start_time, 1_000);
    assert_eq!(round.end_time, 0);
    assert!(round.winner.is_none());
}

#[test]
fn entry_pays_fee_to_house_and_net_to_pot() {
    let (mut l, mut gs, mut round, mut data) = setup(1, 100_000);
    let ev = enter_round(
        &mut round,
        &mut gs,
        &mut data[0],
        &mut l,
        FIRST_PLAYER,
        None,
        1_000,
    )
    .unwrap();
    assert_eq!(round.pot, 95_000);
    assert_eq!(round.total_fees, 5_000);
    assert_eq!(round.player_count, 1);
    assert_eq!(round.end_time, 0);
    assert_eq!(l.balance_of(HOUSE), 5_000);
    assert_eq!(l.balance_of(ESCROW), 95_000);
    assert_eq!(l.balance_of(FIRST_PLAYER), 0);
    assert_eq!(ev.round_id, 1);
    assert_eq!(ev.player, FIRST_PLAYER);
    assert_eq!(ev.entry_number, 1);
    assert_eq!(ev.bet_amount, 100_000);
    assert_eq!(ev.referrer, None);
    assert!(data[0].entered_current_round);
    assert_eq!(data[0].rounds_played, 1);
    assert_eq!(gs.total_wagered, 100_000);
    assert_eq!(gs.wager_count, 1);
}

#[test]
fn entry_with_valid_referrer_splits_the_fee() {
    let (mut l, mut gs, mut round, mut data) = setup(1, 100_000);
    enter_round(
        &mut round,
        &mut gs,
        &mut data[0],
        &mut l,
        FIRST_PLAYER,
        Some(REFERRER),
        1_000,
    )
    .unwrap();
    assert_eq!(l.balance_of(REFERRER), 1_000);
    assert_eq!(l.balance_of(HOUSE), 4_000);
    assert_eq!(l.balance_of(ESCROW), 95_000);
}

#[test]
fn self_referral_earns_nothing() {
    let (mut l, mut gs, mut round, mut data) = setup(1, 100_000);
    enter_round(
        &mut round,
        &mut gs,
        &mut data[0],
        &mut l,
        FIRST_PLAYER,
        Some(FIRST_PLAYER),
        1_000,
    )
    .unwrap();
    assert_eq!(l.balance_of(HOUSE), 5_000);
    assert_eq!(l.balance_of(FIRST_PLAYER), 0);
}

#[test]
fn entry_rejects_empty_stake_account() {
    let (mut l, mut gs, mut round, mut data) = setup(1, 0);
    assert!(matches!(
        enter_round(
            &mut round,
            &mut gs,
            &mut data[0],
            &mut l,
            FIRST_PLAYER,
            None,
            1_000
        ),
        Err(ErrorCode::InvalidBetAmount)
    ));
}

#[test]
fn second_entry_by_same_participant_is_rejected() {
    let (mut l, mut gs, mut round, mut data) = setup(2, 100_000);
    enter_round(
        &mut round,
        &mut gs,
        &mut data[0],
        &mut l,
        FIRST_PLAYER,
        None,
        1_000,
    )
    .unwrap();
    // Refill the stake account: the rejection must come from the entry
    // lock, not from an empty account.
    assert!(l.fund(FIRST_PLAYER, 100_000).is_ok());
    let before_pot = round.pot;
    let before_house = l.balance_of(HOUSE);
    assert!(matches!(
        enter_round(
            &mut round,
            &mut gs,
            &mut data[0],
            &mut l,
            FIRST_PLAYER,
            None,
            1_001
        ),
        Err(ErrorCode::AlreadyEntered)
    ));
    assert_eq!(round.pot, before_pot);
    assert_eq!(round.player_count, 1);
    assert_eq!(l.balance_of(HOUSE), before_house);
}

#[test]
fn countdown_starts_on_second_entry() {
    let (mut l, mut gs, mut round, mut data) = setup(2, 100_000);
    enter_round(
        &mut round,
        &mut gs,
        &mut data[0],
        &mut l,
        FIRST_PLAYER,
        None,
        1_000,
    )
    .unwrap();
    assert_eq!(round.end_time, 0);
    enter_round(
        &mut round,
        &mut gs,
        &mut data[1],
        &mut l,
        FIRST_PLAYER + 1,
        None,
        1_005,
    )
    .unwrap();
    assert_eq!(round.end_time, 1_005 + 60);
    assert_eq!(round.pot, 190_000);
}

#[test]
fn draw_rejects_too_few_players() {
    let (mut l, mut gs, mut round, mut data) = setup(1, 100_000);
    enter_round(
        &mut round,
        &mut gs,
        &mut data[0],
        &mut l,
        FIRST_PLAYER,
        None,
        1_000,
    )
    .unwrap();
    assert!(matches!(
        draw_winner(&mut round, 10_000, 5),
        Err(ErrorCode::NotEnoughPlayers)
    ));
    assert!(matches!(round.state, RoundState::Open));
}

#[test]
fn draw_rejects_before_countdown_ends() {
    let (mut l, mut gs, mut round, mut data) = setup(2, 100_000);
    for k in 0..2 {
        enter_round(
            &mut round,
            &mut gs,
            &mut data[k],
            &mut l,
            FIRST_PLAYER + k,
            None,
            1_000,
        )
        .unwrap();
    }
    let deadline = round.end_time;
    assert!(matches!(
        draw_winner(&mut round, deadline - 1, 5),
        Err(ErrorCode::RoundStillActive)
    ));
    assert!(draw_winner(&mut round, deadline, 5).is_ok());
    assert!(matches!(round.state, RoundState::Drawing));
}

#[test]
fn full_round_draws_before_countdown_ends() {
    let n = MAX_PLAYERS as usize;
    let (mut l, mut gs, mut round, mut data) = setup(n, 100_000);
    for k in 0..n {
        enter_round(
            &mut round,
            &mut gs,
            &mut data[k],
            &mut l,
            FIRST_PLAYER + k,
            None,
            1_000,
        )
        .unwrap();
    }
    let deadline = round.end_time;
    assert!(draw_winner(&mut round, deadline - 1, 5).is_ok());
}

#[test]
fn full_round_rejects_another_entry() {
    let n = MAX_PLAYERS as usize;
    let (mut l, mut gs, mut round, mut data) = setup(n + 1, 100_000);
    for k in 0..n {
        enter_round(
            &mut round,
            &mut gs,
            &mut data[k],
            &mut l,
            FIRST_PLAYER + k,
            None,
            1_000,
        )
        .unwrap();
    }
    assert!(matches!(
        enter_round(
            &mut round,
            &mut gs,
            &mut data[n],
            &mut l,
            FIRST_PLAYER + n,
            None,
            1_000
        ),
        Err(ErrorCode::RoundFull)
    ));
}

#[test]
fn draw_rejects_round_not_open() {
    let (mut l, mut gs, mut round, mut data) = setup(2, 100_000);
    for k in 0..2 {
        enter_round(
            &mut round,
            &mut gs,
            &mut data[k],
            &mut l,
            FIRST_PLAYER + k,
            None,
            1_000,
        )
        .unwrap();
    }
    let deadline = round.end_time;
    assert!(draw_winner(&mut round, deadline, 5).is_ok());
    assert!(matches!(
        draw_winner(&mut round, deadline, 5),
        Err(ErrorCode::RoundNotOpen)
    ));
}

#[test]
fn out_of_range_winner_index_rejected_for_every_round_size() {
    for n in (MIN_PLAYERS as usize)..=(MAX_PLAYERS as usize) {
        let (mut l, mut gs, mut round, mut data) = setup(n, 100_000);
        for k in 0..n {
            enter_round(
                &mut round,
                &mut gs,
                &mut data[k],
                &mut l,
                FIRST_PLAYER + k,
                None,
                1_000,
            )
            .unwrap();
        }
        assert!(draw_winner(&mut round, 2_000, 5).is_ok());
        assert!(matches!(
            resolve_round(
                &mut round,
                &mut gs,
                &mut data[0],
                &mut l,
                FIRST_PLAYER,
                n as u8
            ),
            Err(ErrorCode::InvalidWinner)
        ));
        assert!(matches!(round.state, RoundState::Drawing));
        // The largest in-range index settles the round.
        assert!(resolve_round(
            &mut round,
            &mut gs,
            &mut data[0],
            &mut l,
            FIRST_PLAYER,
            (n - 1) as u8
        )
        .is_ok());
    }
}

#[test]
fn settlement_pays_the_whole_pot_to_the_winner() {
    // Scenario: two entrants of 100_000 each, no referrer.
    let (mut l, mut gs, mut round, mut data) = setup(2, 100_000);
    for k in 0..2 {
        enter_round(
            &mut round,
            &mut gs,
            &mut data[k],
            &mut l,
            FIRST_PLAYER + k,
            None,
            1_000,
        )
        .unwrap();
    }
    assert_eq!(round.pot, 190_000);
    let deadline = round.end_time;
    assert!(draw_winner(&mut round, deadline, 5).is_ok());
    let winner = FIRST_PLAYER + 1;
    let ev = resolve_round(&mut round, &mut gs, &mut data[1], &mut l, winner, 1).unwrap();
    assert!(matches!(round.state, RoundState::Settled));
    assert_eq!(round.winner, Some(winner));
    assert_eq!(l.balance_of(winner), 190_000);
    assert_eq!(l.balance_of(ESCROW), 0);
    assert_eq!(l.balance_of(HOUSE), 10_000);
    assert_eq!(l.total_balance(), 200_000);
    assert_eq!(ev.round_id, 1);
    assert_eq!(ev.winner, winner);
    assert_eq!(ev.payout, 190_000);
    assert_eq!(data[1].rounds_won, 1);
    assert_eq!(gs.total_rounds, 1);
    assert_eq!(gs.current_round, 2);
}

#[test]
fn second_settlement_fails_and_moves_nothing() {
    let (mut l, mut gs, mut round, mut data) = setup(2, 100_000);
    for k in 0..2 {
        enter_round(
            &mut round,
            &mut gs,
            &mut data[k],
            &mut l,
            FIRST_PLAYER + k,
            None,
            1_000,
        )
        .unwrap();
    }
    let deadline = round.end_time;
    assert!(draw_winner(&mut round, deadline, 5).is_ok());
    assert!(resolve_round(&mut round, &mut gs, &mut data[0], &mut l, FIRST_PLAYER, 0).is_ok());
    let before = (
        l.balance_of(FIRST_PLAYER),
        l.balance_of(FIRST_PLAYER + 1),
        l.balance_of(ESCROW),
        l.balance_of(HOUSE),
    );
    assert!(matches!(
        resolve_round(&mut round, &mut gs, &mut data[0], &mut l, FIRST_PLAYER, 0),
        Err(ErrorCode::InvalidState)
    ));
    let after = (
        l.balance_of(FIRST_PLAYER),
        l.balance_of(FIRST_PLAYER + 1),
        l.balance_of(ESCROW),
        l.balance_of(HOUSE),
    );
    assert_eq!(before, after);
    assert_eq!(gs.current_round, 2);
}

#[test]
fn resolve_rejects_while_round_is_open() {
    let (mut l, mut gs, mut round, mut data) = setup(2, 100_000);
    enter_round(
        &mut round,
        &mut gs,
        &mut data[0],
        &mut l,
        FIRST_PLAYER,
        None,
        1_000,
    )
    .unwrap();
    assert!(matches!(
        resolve_round(&mut round, &mut gs, &mut data[0], &mut l, FIRST_PLAYER, 0),
        Err(ErrorCode::InvalidState)
    ));
}
