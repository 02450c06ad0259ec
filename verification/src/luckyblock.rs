//! The multi-player lottery round: a state machine from `Open` through
//! `Drawing` to `Settled`, with a shared configuration record and a
//! per-participant record. Entries pay a basis-point house fee (with an
//! optional referral cut) into house accounts and the net stake into the
//! round's escrow; settlement pays the whole pot to one winner. As with the
//! match engine, every check precedes every balance movement, so a failing
//! call changes nothing.

use crate::fees::{compute_fee, fee_of, lemma_fee_le_stake, split_referral};
use crate::ledger::{seq_sum, transferred, AccountId, Ledger};
use crate::rng::{round_seed, round_seed_spec};
use vstd::prelude::*;

verus! {

/// House fee rate in basis points (5%).
pub const HOUSE_FEE_BPS: u16 = 500;

/// A round activates (its countdown starts) at this many entrants.
pub const MIN_PLAYERS: u8 = 2;

/// A round never accepts more than this many entrants.
pub const MAX_PLAYERS: u8 = 20;

/// Seconds between activation and the earliest permitted draw.
pub const ROUND_DURATION: i64 = 60;

/// Lifecycle of a round. Settlement is the only forward path: no
/// transition cancels a round, so no cancelled state exists.
#[derive(Clone, Copy, Debug, PartialEq, Eq, Structural)]
pub enum RoundState {
    /// Accepting entries.
    Open,
    /// The seed is fixed; awaiting settlement.
    Drawing,
    /// The winner has been paid.
    Settled,
}

/// Why a round operation was rejected. Every rejection is total: the
/// failing call mutates nothing.
#[derive(Clone, Copy, Debug, PartialEq, Eq, Structural)]
pub enum ErrorCode {
    /// An entry or a draw was requested while the round was not open.
    RoundNotOpen,
    /// The round already holds [`MAX_PLAYERS`] entrants.
    RoundFull,
    /// The entrant's stake account is empty.
    InvalidBetAmount,
    /// The entrant already entered this round.
    AlreadyEntered,
    /// A draw was requested below [`MIN_PLAYERS`] entrants.
    NotEnoughPlayers,
    /// A draw was requested before the countdown elapsed on a round that
    /// is not full.
    RoundStillActive,
    /// Settlement was requested while no draw was in progress.
    InvalidState,
    /// The asserted winner position is not an entry of this round.
    InvalidWinner,
}

/// The shared configuration and aggregate counters.
pub struct GameState {
    pub authority: AccountId,
    pub house_wallet: AccountId,
    pub current_round: u64,
    pub total_wagered: u64,
    pub total_rounds: u64,
    pub unique_players: u64,
    pub wager_count: u64,
}

/// One lottery round. The pot is held by the `escrow` account until
/// settlement; `contributions` records the net (post-fee) stake of each
/// entry in order, so the pot is provably the sum of what the entrants
/// put in.
pub struct Round {
    pub id: u64,
    pub state: RoundState,
    pub pot: u64,
    pub player_count: u8,
    pub start_time: i64,
    pub end_time: i64,
    pub winner: Option<AccountId>,
    pub random_seed: u64,
    pub total_fees: u64,
    pub escrow: AccountId,
    pub contributions: Ghost<Seq<u64>>,
}

/// Per-participant record: entry lock for the current round and lifetime
/// statistics. No engine operation clears the lock; the record keeper must
/// reset it (or issue a fresh record) before its holder may enter a later
/// round.
pub struct PlayerData {
    pub player: AccountId,
    pub rounds_played: u64,
    pub rounds_won: u64,
    pub entered_current_round: bool,
}

impl PlayerData {
    /// A fresh record for a participant who has never entered.
    pub fn new(player: AccountId) -> (r: PlayerData)
        ensures
            r.player == player,
            r.rounds_played == 0,
            r.rounds_won == 0,
            !r.entered_current_round,
    {
        PlayerData { player, rounds_played: 0, rounds_won: 0, entered_current_round: false }
    }
}

/// Entry event: who entered which round, in which position, with what
/// stake, and naming which referrer.
pub struct PlayerEntered {
    pub round_id: u64,
    pub player: AccountId,
    pub entry_number: u8,
    pub bet_amount: u64,
    pub referrer: Option<AccountId>,
}

/// Settlement event: who won which round, what was paid, under which seed.
pub struct WinnerDrawn {
    pub round_id: u64,
    pub winner: AccountId,
    pub payout: u64,
    pub random_seed: u64,
}

/// A referrer earns a cut only when one is named and it is not the
/// entrant itself.
pub open spec fn valid_referrer(referrer: Option<AccountId>, player: AccountId) -> bool {
    match referrer {
        Some(rf) => rf != player,
        None => false,
    }
}

/// Internal consistency of a round record: the pot is the sum of the
/// recorded net contributions, one per entrant; the countdown is set
/// exactly once, when the entrant count first reaches [`MIN_PLAYERS`];
/// and the winner is recorded exactly when the round is settled.
pub open spec fn round_internal_wf(r: Round) -> bool {
    &&& r.player_count <= MAX_PLAYERS
    &&& r.player_count as nat == r.contributions@.len()
    &&& r.pot == seq_sum(r.contributions@)
    &&& (r.player_count < MIN_PLAYERS ==> r.end_time == 0)
    &&& (r.player_count >= MIN_PLAYERS ==> r.end_time > 0)
    &&& match r.state {
        RoundState::Open => r.winner is None,
        RoundState::Drawing => r.winner is None && r.player_count >= MIN_PLAYERS,
        RoundState::Settled => r.winner is Some && r.player_count >= MIN_PLAYERS,
    }
}

/// The escrow account holds exactly the pot until settlement and nothing
/// after it.
pub open spec fn round_backed(r: Round, l: Ledger) -> bool {
    &&& r.escrow < l@.len()
    &&& l@[r.escrow as int] == if r.state == RoundState::Settled {
        0int
    } else {
        r.pot as int
    }
}

/// Law: in every round that has not settled, the pot equals the sum of the
/// recorded net contributions of all entrants, and the escrow holds
/// exactly that pot.
pub proof fn lemma_round_pot_matches_contributions(r: Round, l: Ledger)
    requires
        round_internal_wf(r),
        round_backed(r, l),
        r.state != RoundState::Settled,
    ensures
        r.pot == seq_sum(r.contributions@),
        l@[r.escrow as int] == r.pot,
{
}

/// Law: settling a round loses no funds. The winner gains exactly the pot
/// — which is exactly the sum of the entrants' net contributions — the
/// escrow keeps nothing, and the total supply is unchanged.
pub proof fn lemma_round_settlement_conservation(r: Round, l: Ledger, w: int)
    requires
        l.wf(),
        round_internal_wf(r),
        round_backed(r, l),
        r.state == RoundState::Drawing,
        0 <= w < l@.len(),
        w != r.escrow,
    ensures
        ({
            let post = transferred(l@, r.escrow as int, w, r.pot);
            &&& r.pot == seq_sum(r.contributions@)
            &&& post[r.escrow as int] == 0
            &&& post[w] == l@[w] + r.pot
            &&& seq_sum(post) == seq_sum(l@)
        }),
{
    l.lemma_supply_bounds_balance(r.escrow as int);
    crate::ledger::lemma_transferred_effect(l@, r.escrow as int, w, r.pot);
}

/// One-time creation of the shared configuration record.
pub fn initialize(authority: AccountId, house_wallet: AccountId) -> (r: GameState)
    ensures
        r.authority == authority,
        r.house_wallet == house_wallet,
        r.current_round == 1,
        r.total_wagered == 0,
        r.total_rounds == 0,
        r.unique_players == 0,
        r.wager_count == 0,
{
    GameState {
        authority,
        house_wallet,
        current_round: 1,
        total_wagered: 0,
        total_rounds: 0,
        unique_players: 0,
        wager_count: 0,
    }
}

/// Open a new round keyed by the current round counter, with an empty pot
/// held in a fresh escrow account.
pub fn create_round(game_state: &GameState, ledger: &Ledger, escrow: AccountId, now: i64) -> (r:
    Round)
    requires
        escrow < ledger@.len(),
        ledger@[escrow as int] == 0,
    ensures
        r.id == game_state.current_round,
        r.state == RoundState::Open,
        r.pot == 0,
        r.player_count == 0,
        r.start_time == now,
        r.end_time == 0,
        r.winner is None,
        r.random_seed == 0,
        r.total_fees == 0,
        r.escrow == escrow,
        r.contributions@ == Seq::<u64>::empty(),
        round_internal_wf(r),
        round_backed(r, *ledger),
{
    Round {
        id: game_state.current_round,
        state: RoundState::Open,
        pot: 0,
        player_count: 0,
        start_time: now,
        end_time: 0,
        winner: None,
        random_seed: 0,
        total_fees: 0,
        escrow,
        contributions: Ghost(Seq::empty()),
    }
}

/// Enter an open round. The entrant's whole stake account is the bet: the
/// house fee (split with a valid referrer) leaves it first, then the net
/// stake joins the pot. The entry is recorded, the countdown starts on the
/// [`MIN_PLAYERS`]-th entry, and the aggregate counters advance. A
/// participant whose record is already marked for the current round is
/// rejected, whatever their earlier entry looked like.
pub fn enter_round(
    round: &mut Round,
    game_state: &mut GameState,
    player_data: &mut PlayerData,
    ledger: &mut Ledger,
    player: AccountId,
    referrer: Option<AccountId>,
    now: i64,
) -> (r: Result<PlayerEntered, ErrorCode>)
    requires
        old(ledger).wf(),
        round_internal_wf(*old(round)),
        round_backed(*old(round), *old(ledger)),
        player < old(ledger)@.len(),
        player != old(round).escrow,
        old(game_state).house_wallet < old(ledger)@.len(),
        old(game_state).house_wallet != old(round).escrow,
        (referrer matches Some(rf) ==> rf < old(ledger)@.len() && rf != old(round).escrow),
        old(player_data).player == player,
        0 <= now <= i64::MAX - ROUND_DURATION,
        old(player_data).rounds_played < u64::MAX,
        old(game_state).wager_count < u64::MAX,
        old(game_state).total_wagered + old(ledger)@[player as int] <= u64::MAX,
        old(round).total_fees + fee_of(old(ledger)@[player as int], HOUSE_FEE_BPS) <= u64::MAX,
    ensures
        final(ledger).wf(),
        final(ledger)@.len() == old(ledger)@.len(),
        final(ledger).total_supply() == old(ledger).total_supply(),
        round_internal_wf(*final(round)),
        round_backed(*final(round), *final(ledger)),
        r is Ok <==> {
            &&& old(round).state == RoundState::Open
            &&& old(round).player_count < MAX_PLAYERS
            &&& old(ledger)@[player as int] > 0
            &&& !old(player_data).entered_current_round
        },
        old(round).state != RoundState::Open ==> r == Err::<PlayerEntered, ErrorCode>(
            ErrorCode::RoundNotOpen,
        ),
        old(round).state == RoundState::Open && old(round).player_count == MAX_PLAYERS ==> r
            == Err::<PlayerEntered, ErrorCode>(ErrorCode::RoundFull),
        old(round).state == RoundState::Open && old(round).player_count < MAX_PLAYERS && old(
            ledger,
        )@[player as int] == 0 ==> r == Err::<PlayerEntered, ErrorCode>(ErrorCode::InvalidBetAmount),
        old(round).state == RoundState::Open && old(round).player_count < MAX_PLAYERS && old(
            ledger,
        )@[player as int] > 0 && old(player_data).entered_current_round ==> r == Err::<
            PlayerEntered,
            ErrorCode,
        >(ErrorCode::AlreadyEntered),
        r is Err ==> {
            &&& *final(round) == *old(round)
            &&& *final(game_state) == *old(game_state)
            &&& *final(player_data) == *old(player_data)
            &&& final(ledger)@ == old(ledger)@
        },
        r matches Ok(ev) ==> {
            let bet = old(ledger)@[player as int];
            let fee = fee_of(bet, HOUSE_FEE_BPS);
            let net = bet - fee;
            let aff = if valid_referrer(referrer, player) {
                fee / 5
            } else {
                0int
            };
            let hcut = fee - aff;
            let house = old(game_state).house_wallet as int;
            &&& final(round).pot == old(round).pot + net
            &&& final(round).player_count == old(round).player_count + 1
            &&& final(round).total_fees == old(round).total_fees + fee
            &&& final(round).contributions@ == old(round).contributions@.push(net as u64)
            &&& final(round).state == RoundState::Open
            &&& final(round).id == old(round).id
            &&& final(round).start_time == old(round).start_time
            &&& final(round).winner == old(round).winner
            &&& final(round).random_seed == old(round).random_seed
            &&& final(round).escrow == old(round).escrow
            &&& final(round).end_time == if old(round).player_count + 1 == MIN_PLAYERS {
                now + ROUND_DURATION
            } else {
                old(round).end_time as int
            }
            &&& final(player_data).entered_current_round
            &&& final(player_data).rounds_played == old(player_data).rounds_played + 1
            &&& final(player_data).rounds_won == old(player_data).rounds_won
            &&& final(player_data).player == old(player_data).player
            &&& final(game_state).total_wagered == old(game_state).total_wagered + bet
            &&& final(game_state).wager_count == old(game_state).wager_count + 1
            &&& final(game_state).authority == old(game_state).authority
            &&& final(game_state).house_wallet == old(game_state).house_wallet
            &&& final(game_state).current_round == old(game_state).current_round
            &&& final(game_state).total_rounds == old(game_state).total_rounds
            &&& final(game_state).unique_players == old(game_state).unique_players
            &&& final(ledger)@ == if valid_referrer(referrer, player) {
                transferred(
                    transferred(
                        transferred(
                            old(ledger)@,
                            player as int,
                            referrer->Some_0 as int,
                            aff as u64,
                        ),
                        player as int,
                        house,
                        hcut as u64,
                    ),
                    player as int,
                    old(round).escrow as int,
                    net as u64,
                )
            } else {
                transferred(
                    transferred(old(ledger)@, player as int, house, fee as u64),
                    player as int,
                    old(round).escrow as int,
                    net as u64,
                )
            }
            &&& final(ledger)@[old(round).escrow as int] == old(round).pot + net
            &&& (ev == PlayerEntered {
                round_id: old(round).id,
                player,
                entry_number: (old(round).player_count + 1) as u8,
                bet_amount: bet as u64,
                referrer,
            })
        },
{
    if !matches!(round.state, RoundState::Open) {
        return Err(ErrorCode::RoundNotOpen);
    }
    if round.player_count >= MAX_PLAYERS {
        return Err(ErrorCode::RoundFull);
    }
    let bet = ledger.balance_of(player);
    if bet == 0 {
        return Err(ErrorCode::InvalidBetAmount);
    }
    if player_data.entered_current_round {
        return Err(ErrorCode::AlreadyEntered);
    }
    proof {
        lemma_fee_le_stake(bet, HOUSE_FEE_BPS);
        ledger.lemma_supply_bounds_pair(player as int, round.escrow as int);
    }
    let fee = compute_fee(bet, HOUSE_FEE_BPS);
    let net = bet - fee;
    let has_valid_referrer = match referrer {
        Some(rf) => rf != player,
        None => false,
    };
    let (affiliate_cut, house_cut) = split_referral(fee, has_valid_referrer);
    match referrer {
        Some(rf) => {
            if rf != player {
                ledger.pay(player, rf, affiliate_cut);
            }
        },
        None => {},
    }
    ledger.pay(player, game_state.house_wallet, house_cut);
    ledger.pay(player, round.escrow, net);
    proof {
        crate::ledger::lemma_seq_sum_push(round.contributions@, net);
    }
    round.pot = round.pot + net;
    round.player_count = round.player_count + 1;
    round.total_fees = round.total_fees + fee;
    round.contributions = Ghost(round.contributions@.push(net));
    if round.player_count == MIN_PLAYERS {
        round.end_time = now + ROUND_DURATION;
    }
    player_data.entered_current_round = true;
    player_data.rounds_played = player_data.rounds_played + 1;
    game_state.total_wagered = game_state.total_wagered + bet;
    game_state.wager_count = game_state.wager_count + 1;
    Ok(
        PlayerEntered {
            round_id: round.id,
            player,
            entry_number: round.player_count,
            bet_amount: bet,
            referrer,
        },
    )
}

/// Close entries and fix the seed. Permitted only once the round is open
/// with at least [`MIN_PLAYERS`] entrants, and only after the countdown
/// has elapsed — unless the round is full, in which case it draws at
/// once. No balance moves here.
pub fn draw_winner(round: &mut Round, now: i64, slot: u64) -> (r: Result<(), ErrorCode>)
    requires
        round_internal_wf(*old(round)),
    ensures
        round_internal_wf(*final(round)),
        r is Ok <==> {
            &&& old(round).state == RoundState::Open
            &&& old(round).player_count >= MIN_PLAYERS
            &&& (now >= old(round).end_time || old(round).player_count == MAX_PLAYERS)
        },
        old(round).state != RoundState::Open ==> r == Err::<(), ErrorCode>(ErrorCode::RoundNotOpen),
        old(round).state == RoundState::Open && old(round).player_count < MIN_PLAYERS ==> r
            == Err::<(), ErrorCode>(ErrorCode::NotEnoughPlayers),
        old(round).state == RoundState::Open && old(round).player_count >= MIN_PLAYERS && !(now
            >= old(round).end_time || old(round).player_count == MAX_PLAYERS) ==> r == Err::<
            (),
            ErrorCode,
        >(ErrorCode::RoundStillActive),
        r is Err ==> *final(round) == *old(round),
        r is Ok ==> *final(round) == (Round {
            state: RoundState::Drawing,
            random_seed: round_seed_spec(now, slot, old(round).pot, old(round).player_count),
            ..*old(round)
        }),
{
    if !matches!(round.state, RoundState::Open) {
        return Err(ErrorCode::RoundNotOpen);
    }
    if round.player_count < MIN_PLAYERS {
        return Err(ErrorCode::NotEnoughPlayers);
    }
    if !(now >= round.end_time || round.player_count == MAX_PLAYERS) {
        return Err(ErrorCode::RoundStillActive);
    }
    round.state = RoundState::Drawing;
    round.random_seed = round_seed(now, slot, round.pot, round.player_count);
    Ok(())
}

/// Settle a drawing round: record the winner, pay the whole pot out of
/// escrow to the winner's account, advance the winner's and the global
/// statistics, and step the round counter. The payout equals the pot,
/// which equals the sum of all recorded net contributions. A second
/// settlement is rejected and moves nothing.
pub fn resolve_round(
    round: &mut Round,
    game_state: &mut GameState,
    winner_data: &mut PlayerData,
    ledger: &mut Ledger,
    winner: AccountId,
    winner_index: u8,
) -> (r: Result<WinnerDrawn, ErrorCode>)
    requires
        old(ledger).wf(),
        round_internal_wf(*old(round)),
        round_backed(*old(round), *old(ledger)),
        winner < old(ledger)@.len(),
        winner != old(round).escrow,
        old(winner_data).player == winner,
        old(winner_data).rounds_won < u64::MAX,
        old(game_state).total_rounds < u64::MAX,
        old(game_state).current_round < u64::MAX,
    ensures
        final(ledger).wf(),
        final(ledger)@.len() == old(ledger)@.len(),
        final(ledger).total_supply() == old(ledger).total_supply(),
        round_internal_wf(*final(round)),
        round_backed(*final(round), *final(ledger)),
        r is Ok <==> (old(round).state == RoundState::Drawing && winner_index < old(
            round,
        ).player_count),
        old(round).state != RoundState::Drawing ==> r == Err::<WinnerDrawn, ErrorCode>(
            ErrorCode::InvalidState,
        ),
        old(round).state == RoundState::Drawing && winner_index >= old(round).player_count ==> r
            == Err::<WinnerDrawn, ErrorCode>(ErrorCode::InvalidWinner),
        r is Err ==> {
            &&& *final(round) == *old(round)
            &&& *final(game_state) == *old(game_state)
            &&& *final(winner_data) == *old(winner_data)
            &&& final(ledger)@ == old(ledger)@
        },
        r matches Ok(ev) ==> {
            &&& final(round).winner == Some(winner)
            &&& final(round).state == RoundState::Settled
            &&& final(round).pot == old(round).pot
            &&& final(round).id == old(round).id
            &&& final(round).player_count == old(round).player_count
            &&& final(round).start_time == old(round).start_time
            &&& final(round).end_time == old(round).end_time
            &&& final(round).random_seed == old(round).random_seed
            &&& final(round).total_fees == old(round).total_fees
            &&& final(round).escrow == old(round).escrow
            &&& final(round).contributions@ == old(round).contributions@
            &&& final(ledger)@ == transferred(
                old(ledger)@,
                old(round).escrow as int,
                winner as int,
                old(round).pot,
            )
            &&& final(ledger)@[old(round).escrow as int] == 0
            &&& final(ledger)@[winner as int] == old(ledger)@[winner as int] + old(round).pot
            &&& old(round).pot == seq_sum(old(round).contributions@)
            &&& final(winner_data).rounds_won == old(winner_data).rounds_won + 1
            &&& final(winner_data).rounds_played == old(winner_data).rounds_played
            &&& final(winner_data).entered_current_round == old(
                winner_data,
            ).entered_current_round
            &&& final(winner_data).player == old(winner_data).player
            &&& final(game_state).total_rounds == old(game_state).total_rounds + 1
            &&& final(game_state).current_round == old(game_state).current_round + 1
            &&& final(game_state).authority == old(game_state).authority
            &&& final(game_state).house_wallet == old(game_state).house_wallet
            &&& final(game_state).total_wagered == old(game_state).total_wagered
            &&& final(game_state).unique_players == old(game_state).unique_players
            &&& final(game_state).wager_count == old(game_state).wager_count
            &&& (ev == WinnerDrawn {
                round_id: old(round).id,
                winner,
                payout: old(round).pot,
                random_seed: old(round).random_seed,
            })
        },
{
    if !matches!(round.state, RoundState::Drawing) {
        return Err(ErrorCode::InvalidState);
    }
    if winner_index >= round.player_count {
        return Err(ErrorCode::InvalidWinner);
    }
    proof {
        ledger.lemma_supply_bounds_pair(round.escrow as int, winner as int);
    }
    let payout = round.pot;
    ledger.pay(round.escrow, winner, payout);
    round.winner = Some(winner);
    round.state = RoundState::Settled;
    winner_data.rounds_won = winner_data.rounds_won + 1;
    game_state.total_rounds = game_state.total_rounds + 1;
    game_state.current_round = game_state.current_round + 1;
    Ok(
        WinnerDrawn {
            round_id: round.id,
            winner,
            payout,
            random_seed: round.random_seed,
        },
    )
}

} // verus!
