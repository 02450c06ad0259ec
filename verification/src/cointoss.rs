//! The two-player coin-flip match: a state machine from
//! `WaitingForOpponent` through `InProgress` to `Finished`. Each transition
//! checks its preconditions before touching any balance, so every failing
//! call leaves the match and the ledger exactly as they were.

use crate::fees::lemma_fee_le_stake;
use crate::ledger::{seq_sum, transferred, AccountId, Ledger};
use crate::rng::player1_wins;
use vstd::prelude::*;

verus! {

/// Smallest stake a match may be created with.
pub const MIN_BET: u64 = 10_000;

/// Lifecycle of a match. Settlement is the only forward path: no
/// transition cancels a match, so no cancelled state exists.
#[derive(Clone, Copy, Debug, PartialEq, Eq, Structural)]
pub enum GameState {
    WaitingForOpponent,
    InProgress,
    Finished,
}

/// Why a match operation was rejected. Every rejection is total: the
/// failing call mutates nothing.
#[derive(Clone, Copy, Debug, PartialEq, Eq, Structural)]
pub enum ErrorCode {
    /// The stake was zero.
    InvalidBetAmount,
    /// The stake was below [`MIN_BET`].
    BetTooSmall,
    /// An opponent tried to join a match that is not waiting for one.
    GameNotWaiting,
    /// The creator tried to join their own match.
    CannotPlaySelf,
    /// Settlement was requested for a match that is not in progress.
    GameNotInProgress,
    /// The paying account does not hold the stake.
    InsufficientFunds,
}

/// The house keeps 5% of each side's stake: `floor(bet * 5 / 100)`.
pub open spec fn match_fee(bet: u64) -> int {
    (bet * 5) / 100
}

/// One two-player match. The pot is held by the `escrow` account until
/// settlement.
pub struct Game {
    pub player1: AccountId,
    pub player2: Option<AccountId>,
    pub escrow: AccountId,
    pub bet_amount: u64,
    pub pot: u64,
    pub house_fee: u64,
    pub winner: Option<AccountId>,
    pub state: GameState,
    pub created_at: i64,
}

/// Well-formedness of a match against the ledger it plays on: the pot
/// always equals the stake times the number of joined players, the escrow
/// holds exactly the pot until settlement and nothing after it, and the
/// winner is recorded exactly when the match is finished.
pub open spec fn game_wf(g: Game, l: Ledger) -> bool {
    &&& g.escrow < l@.len()
    &&& g.player1 < l@.len()
    &&& g.player1 != g.escrow
    &&& g.bet_amount >= MIN_BET
    &&& g.house_fee == match_fee(g.bet_amount)
    &&& (g.player2 matches Some(p2) ==> p2 < l@.len() && p2 != g.escrow && p2 != g.player1)
    &&& match g.state {
        GameState::WaitingForOpponent => {
            &&& g.player2 is None
            &&& g.winner is None
            &&& g.pot == g.bet_amount
            &&& l@[g.escrow as int] == g.pot
        },
        GameState::InProgress => {
            &&& g.player2 is Some
            &&& g.winner is None
            &&& g.pot == 2 * g.bet_amount
            &&& l@[g.escrow as int] == g.pot
        },
        GameState::Finished => {
            &&& g.player2 is Some
            &&& g.winner is Some
            &&& g.pot == 2 * g.bet_amount
            &&& l@[g.escrow as int] == 0
            &&& (g.winner == Some(g.player1) || g.winner == g.player2)
        },
    }
}

/// Law: once both players have joined, and for ever after, the pot is
/// exactly both stakes, and the house's total cut fits inside it.
pub proof fn lemma_match_pot_is_two_bets(g: Game, l: Ledger)
    requires
        game_wf(g, l),
        g.state == GameState::InProgress || g.state == GameState::Finished,
    ensures
        g.pot == 2 * g.bet_amount,
        2 * g.house_fee <= g.pot,
{
    lemma_fee_le_stake(g.bet_amount, 500);
    assert(g.bet_amount * 5 / 100 == g.bet_amount * 500 / 10000) by (nonlinear_arith);
}

/// Law: settling a match loses no funds. Whatever pot the escrow held is
/// exactly what the house and the winner receive together: the house
/// gains the whole fee, the winner gains the whole payout, the escrow
/// keeps nothing, and the total supply is unchanged.
pub proof fn lemma_match_settlement_conservation(
    pre: Seq<u64>,
    escrow: int,
    house: int,
    w: int,
    fee_total: u64,
    payout: u64,
)
    requires
        0 <= escrow < pre.len(),
        0 <= house < pre.len(),
        0 <= w < pre.len(),
        escrow != house,
        escrow != w,
        house != w,
        pre[escrow] == fee_total + payout,
        seq_sum(pre) <= u64::MAX,
    ensures
        ({
            let post = transferred(transferred(pre, escrow, house, fee_total), escrow, w, payout);
            &&& post[escrow] == 0
            &&& post[house] == pre[house] + fee_total
            &&& post[w] == pre[w] + payout
            &&& seq_sum(post) == seq_sum(pre)
        }),
{
    let t1 = transferred(pre, escrow, house, fee_total);
    crate::ledger::lemma_transferred_effect(pre, escrow, house, fee_total);
    crate::ledger::lemma_transferred_effect(t1, escrow, w, payout);
}

/// Open a new match: the creator stakes `bet_amount`, which moves into the
/// match's escrow account, and the match waits for an opponent.
pub fn create_game(
    ledger: &mut Ledger,
    player: AccountId,
    escrow: AccountId,
    bet_amount: u64,
    now: i64,
) -> (r: Result<Game, ErrorCode>)
    requires
        old(ledger).wf(),
        player < old(ledger)@.len(),
        escrow < old(ledger)@.len(),
        player != escrow,
        old(ledger)@[escrow as int] == 0,
    ensures
        final(ledger).wf(),
        final(ledger)@.len() == old(ledger)@.len(),
        final(ledger).total_supply() == old(ledger).total_supply(),
        r is Ok <==> MIN_BET <= bet_amount <= old(ledger)@[player as int],
        bet_amount == 0 ==> r == Err::<Game, ErrorCode>(ErrorCode::InvalidBetAmount),
        0 < bet_amount < MIN_BET ==> r == Err::<Game, ErrorCode>(ErrorCode::BetTooSmall),
        bet_amount >= MIN_BET && old(ledger)@[player as int] < bet_amount ==> r == Err::<
            Game,
            ErrorCode,
        >(ErrorCode::InsufficientFunds),
        r is Err ==> final(ledger)@ == old(ledger)@,
        r matches Ok(g) ==> {
            &&& g.player1 == player
            &&& g.player2 is None
            &&& g.escrow == escrow
            &&& g.bet_amount == bet_amount
            &&& g.pot == bet_amount
            &&& g.house_fee == match_fee(bet_amount)
            &&& g.winner is None
            &&& g.state == GameState::WaitingForOpponent
            &&& g.created_at == now
            &&& final(ledger)@ == transferred(
                old(ledger)@,
                player as int,
                escrow as int,
                bet_amount,
            )
            &&& game_wf(g, *final(ledger))
        },
{
    if bet_amount == 0 {
        return Err(ErrorCode::InvalidBetAmount);
    }
    if bet_amount < MIN_BET {
        return Err(ErrorCode::BetTooSmall);
    }
    if ledger.balance_of(player) < bet_amount {
        return Err(ErrorCode::InsufficientFunds);
    }
    proof {
        lemma_fee_le_stake(bet_amount, 500);
        assert(bet_amount * 5 / 100 == bet_amount * 500 / 10000) by (nonlinear_arith);
    }
    let house_fee: u64 = crate::fees::compute_fee(bet_amount, 500);
    ledger.pay(player, escrow, bet_amount);
    Ok(
        Game {
            player1: player,
            player2: None,
            escrow,
            bet_amount,
            pot: bet_amount,
            house_fee,
            winner: None,
            state: GameState::WaitingForOpponent,
            created_at: now,
        },
    )
}

/// Join a waiting match as the second player: the opponent matches the
/// stake, the pot doubles, and the match becomes ready to resolve.
pub fn join_game(game: &mut Game, ledger: &mut Ledger, player: AccountId) -> (r: Result<
    (),
    ErrorCode,
>)
    requires
        old(ledger).wf(),
        game_wf(*old(game), *old(ledger)),
        player < old(ledger)@.len(),
        player != old(game).escrow,
    ensures
        final(ledger).wf(),
        final(ledger)@.len() == old(ledger)@.len(),
        final(ledger).total_supply() == old(ledger).total_supply(),
        game_wf(*final(game), *final(ledger)),
        r is Ok <==> {
            &&& old(game).state == GameState::WaitingForOpponent
            &&& player != old(game).player1
            &&& old(game).bet_amount <= old(ledger)@[player as int]
        },
        old(game).state != GameState::WaitingForOpponent ==> r == Err::<(), ErrorCode>(
            ErrorCode::GameNotWaiting,
        ),
        old(game).state == GameState::WaitingForOpponent && player == old(game).player1 ==> r
            == Err::<(), ErrorCode>(ErrorCode::CannotPlaySelf),
        old(game).state == GameState::WaitingForOpponent && player != old(game).player1 && old(
            ledger,
        )@[player as int] < old(game).bet_amount ==> r == Err::<(), ErrorCode>(
            ErrorCode::InsufficientFunds,
        ),
        r is Err ==> *final(game) == *old(game) && final(ledger)@ == old(ledger)@,
        r is Ok ==> {
            &&& final(game).player2 == Some(player)
            &&& final(game).state == GameState::InProgress
            &&& final(game).pot == 2 * old(game).bet_amount
            &&& final(game).player1 == old(game).player1
            &&& final(game).escrow == old(game).escrow
            &&& final(game).bet_amount == old(game).bet_amount
            &&& final(game).house_fee == old(game).house_fee
            &&& final(game).winner == old(game).winner
            &&& final(game).created_at == old(game).created_at
            &&& final(ledger)@ == transferred(
                old(ledger)@,
                player as int,
                old(game).escrow as int,
                old(game).bet_amount,
            )
        },
{
    if !matches!(game.state, GameState::WaitingForOpponent) {
        return Err(ErrorCode::GameNotWaiting);
    }
    if player == game.player1 {
        return Err(ErrorCode::CannotPlaySelf);
    }
    if ledger.balance_of(player) < game.bet_amount {
        return Err(ErrorCode::InsufficientFunds);
    }
    proof {
        ledger.lemma_supply_bounds_pair(player as int, game.escrow as int);
    }
    ledger.pay(player, game.escrow, game.bet_amount);
    game.player2 = Some(player);
    game.pot = game.pot + game.bet_amount;
    game.state = GameState::InProgress;
    Ok(())
}

/// Settle an in-progress match: flip the coin on the slot height, move the
/// house's cut of both stakes to the house wallet and the remainder of the
/// pot to the winner, draining the escrow to zero. Everything the house
/// and the winner receive together is exactly the pot, and the pot is
/// exactly both stakes. A second settlement is rejected and moves nothing.
pub fn resolve_game(game: &mut Game, ledger: &mut Ledger, house: AccountId, slot: u64) -> (r:
    Result<(), ErrorCode>)
    requires
        old(ledger).wf(),
        game_wf(*old(game), *old(ledger)),
        house < old(ledger)@.len(),
        house != old(game).escrow,
    ensures
        final(ledger).wf(),
        final(ledger)@.len() == old(ledger)@.len(),
        final(ledger).total_supply() == old(ledger).total_supply(),
        game_wf(*final(game), *final(ledger)),
        r is Ok <==> old(game).state == GameState::InProgress,
        r is Err ==> r == Err::<(), ErrorCode>(ErrorCode::GameNotInProgress) && *final(game)
            == *old(game) && final(ledger)@ == old(ledger)@,
        r is Ok ==> {
            let fee_total = 2 * old(game).house_fee;
            let payout = old(game).pot - fee_total;
            let w = if player1_wins(slot) {
                old(game).player1
            } else {
                old(game).player2->Some_0
            };
            &&& payout + fee_total == old(game).pot
            &&& old(game).pot == 2 * old(game).bet_amount
            &&& final(game).winner == Some(w)
            &&& final(game).state == GameState::Finished
            &&& final(game).player1 == old(game).player1
            &&& final(game).player2 == old(game).player2
            &&& final(game).escrow == old(game).escrow
            &&& final(game).bet_amount == old(game).bet_amount
            &&& final(game).pot == old(game).pot
            &&& final(game).house_fee == old(game).house_fee
            &&& final(game).created_at == old(game).created_at
            &&& final(ledger)@ == transferred(
                transferred(old(ledger)@, old(game).escrow as int, house as int, fee_total as u64),
                old(game).escrow as int,
                w as int,
                payout as u64,
            )
            &&& final(ledger)@[old(game).escrow as int] == 0
        },
{
    if !matches!(game.state, GameState::InProgress) {
        return Err(ErrorCode::GameNotInProgress);
    }
    proof {
        lemma_fee_le_stake(game.bet_amount, 500);
        assert(game.bet_amount * 5 / 100 == game.bet_amount * 500 / 10000) by (nonlinear_arith);
    }
    let fee_total: u64 = game.house_fee * 2;
    let payout: u64 = game.pot - fee_total;
    let player2 = match game.player2 {
        Some(p2) => p2,
        None => {
            proof {
                assert(false);
            }
            return Err(ErrorCode::GameNotInProgress);
        },
    };
    let winner = if crate::rng::coin_flip(slot) {
        game.player1
    } else {
        player2
    };
    ledger.pay(game.escrow, house, fee_total);
    ledger.pay(game.escrow, winner, payout);
    game.winner = Some(winner);
    game.state = GameState::Finished;
    Ok(())
}

} // verus!
