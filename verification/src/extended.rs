//! The ledger with fees, per-user positions and single-shot claims.
//!
//! Every operation reads a named set of records, checks its preconditions in
//! a fixed order, and either writes all of its effects or none. Value is not
//! moved here: an operation that succeeds returns the transfers to request.

use vstd::prelude::*;
use crate::clock::unix_timestamp;
use crate::errors::{ErrorCode, Failure};
use crate::identity::Pubkey;
use crate::market::{
    byte_len, fits, new_market, BetSide, Holder, Market, MarketStatus, Transfer,
    MAX_DESCRIPTION_LEN, MAX_NAME_LEN, MAX_QUESTION_LEN, MAX_SYMBOL_LEN,
};
use crate::settlement::{fee_of, lemma_payout_covers_stake, net_of, payout, platform_fee};

verus! {

/// The registry: the one record that all markets share.
#[derive(Clone, Copy, Debug, PartialEq, Eq)]
pub struct Global {
    pub authority: Pubkey,
    /// The id that the next market gets.
    pub market_count: u64,
    /// Lifetime gross stake; stops at the largest value.
    pub total_volume: u64,
    /// Lifetime fees; stops at the largest value.
    pub total_fees_collected: u64,
}

/// A user's unclaimed net stake on each side of one market.
#[derive(Clone, Copy, Debug, PartialEq, Eq)]
pub struct Position {
    pub market: Pubkey,
    pub user: Pubkey,
    pub yes_amount: u64,
    pub no_amount: u64,
}

/// One wager, as it was placed.
#[derive(Clone, Copy, Debug, PartialEq, Eq)]
pub struct Bet {
    pub market: Pubkey,
    pub user: Pubkey,
    /// The stake after the fee.
    pub amount: u64,
    pub side: BetSide,
    pub timestamp: i64,
    pub claimed: bool,
}

/// A bet that was accepted: the record to store under a key of its own, and
/// the transfers to request.
#[derive(Clone, Copy, Debug, PartialEq, Eq)]
pub struct PlacedBet {
    /// The new bet record, not yet claimed.
    pub bet: Bet,
    /// The gross stake, from the user to the market.
    pub deposit: Transfer,
    /// The fee, from the market to the platform; none where the fee is zero.
    pub fee: Option<Transfer>,
}

/// A bet record that was paid out.
#[derive(Clone, Copy, Debug, PartialEq, Eq, Structural)]
pub struct Claimed {
    /// The payout, from the market to the user.
    pub payout: Transfer,
    /// By how much the bet's stake exceeded what the position still held on
    /// its side. Zero while the books agree; anything else is a sign of a
    /// double claim or of drift, to be logged by the caller.
    pub shortfall: u64,
}

/// Records of `initialize`.
#[derive(Clone, Copy, Debug, PartialEq, Eq)]
pub struct Initialize {
    pub authority: Pubkey,
}

/// Records of `create_market`.
#[derive(Clone, Copy, Debug, PartialEq, Eq)]
pub struct CreateMarket {
    pub global: Global,
    pub creator: Pubkey,
}

/// Records of `place_bet`.
#[derive(Clone, Debug, PartialEq, Eq)]
pub struct PlaceBet {
    /// The caller's position in the market; all-zero before the first bet.
    pub position: Position,
    pub market: Market,
    pub global: Global,
    pub user: Pubkey,
    /// The key under which `market` is stored.
    pub market_key: Pubkey,
    /// The asset that the caller's funding account holds.
    pub user_token_mint: Pubkey,
}

/// Records of `resolve_market`.
#[derive(Clone, Debug, PartialEq, Eq)]
pub struct ResolveMarket {
    pub market: Market,
    pub resolver: Pubkey,
}

/// Records of `claim_winnings`.
#[derive(Clone, Debug, PartialEq, Eq)]
pub struct ClaimWinnings {
    pub market: Market,
    pub position: Position,
    pub bet: Bet,
    pub user: Pubkey,
    /// The key under which `market` is stored.
    pub market_key: Pubkey,
}

/// Records of `claim_all_winnings`.
#[derive(Clone, Debug, PartialEq, Eq)]
pub struct ClaimAllWinnings {
    pub market: Market,
    pub position: Position,
    pub user: Pubkey,
    /// The key under which `market` is stored.
    pub market_key: Pubkey,
}

impl Global {
    /// The registry after one more market was created.
    pub open spec fn with_market(self) -> Global
        recommends
            self.market_count < u64::MAX,
    {
        Global { market_count: (self.market_count + 1) as u64, ..self }
    }

    /// The registry after a bet of gross `amount`.
    pub open spec fn with_bet(self, amount: u64) -> Global {
        Global {
            total_volume: if self.total_volume + amount > u64::MAX {
                u64::MAX
            } else {
                (self.total_volume + amount) as u64
            },
            total_fees_collected: if self.total_fees_collected + fee_of(amount as nat)
                > u64::MAX {
                u64::MAX
            } else {
                (self.total_fees_collected + fee_of(amount as nat)) as u64
            },
            ..self
        }
    }
}

impl Bet {
    /// Whether this is a bet of `user` in the market stored under `market`.
    pub open spec fn belongs_to(self, market: Pubkey, user: Pubkey) -> bool {
        self.market == market && self.user == user
    }

    /// Decides whether this is a bet of `user` in the market stored under
    /// `market`.
    pub fn is_of(&self, market: &Pubkey, user: &Pubkey) -> (b: bool)
        ensures
            b == self.belongs_to(*market, *user),
    {
        self.market.same(market) && self.user.same(user)
    }
}

impl Position {
    /// A position that no bet has written yet.
    pub open spec fn is_vacant(self) -> bool {
        self.market.is_zero()
    }

    /// Whether this is the position of `user` in the market stored under
    /// `market`.
    pub open spec fn belongs_to(self, market: Pubkey, user: Pubkey) -> bool {
        self.market == market && self.user == user
    }

    /// Decides whether this is the position of `user` in the market stored
    /// under `market`.
    pub fn is_of(&self, market: &Pubkey, user: &Pubkey) -> (b: bool)
        ensures
            b == self.belongs_to(*market, *user),
    {
        self.market.same(market) && self.user.same(user)
    }

    /// The stake on one side.
    pub open spec fn stake(self, side: BetSide) -> u64 {
        match side {
            BetSide::Yes => self.yes_amount,
            BetSide::No => self.no_amount,
        }
    }

    /// The position as a bet finds it: a vacant one becomes the empty
    /// position of `user` in `market`.
    pub open spec fn opened(self, market: Pubkey, user: Pubkey) -> Position {
        if self.is_vacant() {
            Position { market, user, yes_amount: 0, no_amount: 0 }
        } else {
            self
        }
    }

    /// The position with `net` more on `side`.
    pub open spec fn with_stake(self, side: BetSide, net: u64) -> Position
        recommends
            self.stake(side) + net <= u64::MAX,
    {
        match side {
            BetSide::Yes => Position { yes_amount: (self.yes_amount + net) as u64, ..self },
            BetSide::No => Position { no_amount: (self.no_amount + net) as u64, ..self },
        }
    }

    /// The position with `amount` less on `side`, and never less than zero.
    pub open spec fn without_stake(self, side: BetSide, amount: u64) -> Position {
        match side {
            BetSide::Yes => Position {
                yes_amount: if self.yes_amount >= amount {
                    (self.yes_amount - amount) as u64
                } else {
                    0
                },
                ..self
            },
            BetSide::No => Position {
                no_amount: if self.no_amount >= amount {
                    (self.no_amount - amount) as u64
                } else {
                    0
                },
                ..self
            },
        }
    }

    /// The position with nothing left on `side`.
    pub open spec fn cleared(self, side: BetSide) -> Position {
        match side {
            BetSide::Yes => Position { yes_amount: 0, ..self },
            BetSide::No => Position { no_amount: 0, ..self },
        }
    }
}

/// The registry as `initialize` leaves it.
pub open spec fn fresh_registry(authority: Pubkey) -> Global {
    Global { authority, market_count: 0, total_volume: 0, total_fees_collected: 0 }
}

/// Sets up the registry: no market yet, nothing staked, the caller as its
/// authority.
pub fn initialize(accounts: &Initialize) -> (r: Result<Global, Failure>)
    ensures
        r == Ok::<Global, Failure>(fresh_registry(accounts.authority)),
{
    Ok(
        Global {
            authority: accounts.authority,
            market_count: 0,
            total_volume: 0,
            total_fees_collected: 0,
        },
    )
}

/// Why a market with these texts cannot be created in `registry`.
pub open spec fn create_refusal(
    registry: Global,
    question: Seq<char>,
    description: Seq<char>,
    symbol: Seq<char>,
    name: Seq<char>,
) -> Option<Failure> {
    if byte_len(question) > MAX_QUESTION_LEN || byte_len(description) > MAX_DESCRIPTION_LEN
        || byte_len(symbol) > MAX_SYMBOL_LEN || byte_len(name) > MAX_NAME_LEN {
        Some(Failure::Rejected(ErrorCode::TextTooLong))
    } else if registry.market_count == u64::MAX {
        Some(Failure::Overflow)
    } else {
        None
    }
}

/// Creates a market under the registry's next id, with the caller as its
/// creator, and advances the registry. The closing time is taken as given,
/// also where it lies in the past.
pub fn create_market(
    accounts: &mut CreateMarket,
    question: String,
    description: String,
    closing_time: i64,
    required_token_mint: Pubkey,
    required_token_symbol: String,
    required_token_name: String,
) -> (r: Result<Market, Failure>)
    ensures
        match create_refusal(
            old(accounts).global,
            question@,
            description@,
            required_token_symbol@,
            required_token_name@,
        ) {
            Some(e) => r == Err::<Market, Failure>(e) && *final(accounts) == *old(accounts),
            None => {
                &&& r == Ok::<Market, Failure>(
                    new_market(
                        old(accounts).global.market_count,
                        old(accounts).creator,
                        question,
                        description,
                        closing_time,
                        required_token_mint,
                        required_token_symbol,
                        required_token_name,
                    ),
                )
                &&& r.unwrap().wf()
                &&& *final(accounts) == (CreateMarket {
                    global: old(accounts).global.with_market(),
                    ..*old(accounts)
                })
            },
        },
{
    if !fits(&question, MAX_QUESTION_LEN) || !fits(&description, MAX_DESCRIPTION_LEN) || !fits(
        &required_token_symbol,
        MAX_SYMBOL_LEN,
    ) || !fits(&required_token_name, MAX_NAME_LEN) {
        return Err(Failure::Rejected(ErrorCode::TextTooLong));
    }
    if accounts.global.market_count == u64::MAX {
        return Err(Failure::Overflow);
    }
    let market = Market::open(
        accounts.global.market_count,
        accounts.creator,
        question,
        description,
        closing_time,
        required_token_mint,
        required_token_symbol,
        required_token_name,
    );
    accounts.global.market_count = accounts.global.market_count + 1;
    Ok(market)
}

/// Why a bet of gross `amount` on `side` at time `now` is not accepted: what
/// the market refuses, then a position that is another user's or another
/// market's, then a counter that is full.
pub open spec fn bet_refusal(a: PlaceBet, now: i64, amount: u64, side: BetSide) -> Option<
    Failure,
> {
    let net = net_of(amount as nat) as u64;
    match a.market.bet_refusal(now, a.user_token_mint) {
        Some(e) => Some(Failure::Rejected(e)),
        None => if !a.position.is_vacant() && !a.position.belongs_to(a.market_key, a.user) {
            Some(Failure::Unauthorized)
        } else if !a.market.has_room(side, net) || a.position.opened(
            a.market_key,
            a.user,
        ).stake(side) + net > u64::MAX {
            Some(Failure::Overflow)
        } else {
            None
        },
    }
}

/// The records after a bet that was accepted.
pub open spec fn after_bet(a: PlaceBet, now: i64, amount: u64, side: BetSide) -> PlaceBet {
    let net = net_of(amount as nat) as u64;
    PlaceBet {
        position: a.position.opened(a.market_key, a.user).with_stake(side, net),
        market: a.market.with_stake(side, net),
        global: a.global.with_bet(amount),
        ..a
    }
}

/// The record of a bet that was accepted, and the transfers it asks for.
pub open spec fn placed_bet(a: PlaceBet, now: i64, amount: u64, side: BetSide) -> PlacedBet {
    PlacedBet {
        bet: Bet {
            market: a.market_key,
            user: a.user,
            amount: net_of(amount as nat) as u64,
            side,
            timestamp: now,
            claimed: false,
        },
        deposit: Transfer { from: Holder::User, to: Holder::Market, amount },
        fee: if fee_of(amount as nat) > 0 {
            Some(
                Transfer {
                    from: Holder::Market,
                    to: Holder::Platform,
                    amount: fee_of(amount as nat) as u64,
                },
            )
        } else {
            None
        },
    }
}

/// What a call of `place_bet_at` at time `now` does: the result `r`, and the
/// records `after` the call for those `before` it.
pub open spec fn placed_at(
    before: PlaceBet,
    now: i64,
    amount: u64,
    side: BetSide,
    r: Result<PlacedBet, Failure>,
    after: PlaceBet,
) -> bool {
    match bet_refusal(before, now, amount, side) {
        Some(e) => r == Err::<PlacedBet, Failure>(e) && after == before,
        None => r == Ok::<PlacedBet, Failure>(placed_bet(before, now, amount, side)) && after
            == after_bet(before, now, amount, side),
    }
}

/// Places a bet of gross `amount` on `side` at time `now`.
///
/// Refused, in this order, where the market is not active, where `now` is
/// not before the closing time, where the funding account holds another
/// asset, and where the position is not the caller's in this market. The fee
/// is taken from the stake; the rest goes to the new bet
/// record, the position and the market's pool, the gross amount and the fee
/// to the registry's totals.
pub fn place_bet_at(accounts: &mut PlaceBet, now: i64, amount: u64, side: BetSide) -> (r: Result<
    PlacedBet,
    Failure,
>)
    ensures
        placed_at(*old(accounts), now, amount, side, r, *final(accounts)),
        old(accounts).market.status == MarketStatus::Active && now >= old(
            accounts,
        ).market.closing_time ==> r == Err::<PlacedBet, Failure>(
            Failure::Rejected(ErrorCode::MarketClosed),
        ),
        old(accounts).market.wf() ==> final(accounts).market.wf(),
        old(accounts).market.status == MarketStatus::Resolved ==> final(accounts).market == old(
            accounts,
        ).market,
        final(accounts).market.yes_pool >= old(accounts).market.yes_pool,
        final(accounts).market.no_pool >= old(accounts).market.no_pool,
{
    match accounts.market.check_bet(now, &accounts.user_token_mint) {
        Err(e) => {
            return Err(Failure::Rejected(e));
        },
        Ok(_) => {},
    }
    let fee_amount: u64 = platform_fee(amount);
    let bet_amount: u64 = amount - fee_amount;

    let mut position = accounts.position;
    if position.market.is_default() {
        position =
        Position { market: accounts.market_key, user: accounts.user, yes_amount: 0, no_amount: 0 };
    } else if !position.is_of(&accounts.market_key, &accounts.user) {
        return Err(Failure::Unauthorized);
    }
    match side {
        BetSide::Yes => {
            if bet_amount > u64::MAX - position.yes_amount {
                return Err(Failure::Overflow);
            }
            position.yes_amount = position.yes_amount + bet_amount;
        },
        BetSide::No => {
            if bet_amount > u64::MAX - position.no_amount {
                return Err(Failure::Overflow);
            }
            position.no_amount = position.no_amount + bet_amount;
        },
    }
    match accounts.market.record_stake(side, bet_amount) {
        Err(e) => {
            return Err(e);
        },
        Ok(_) => {},
    }
    accounts.position = position;
    let bet = Bet {
        market: accounts.market_key,
        user: accounts.user,
        amount: bet_amount,
        side,
        timestamp: now,
        claimed: false,
    };
    accounts.global.total_volume = accounts.global.total_volume.saturating_add(amount);
    accounts.global.total_fees_collected = accounts.global.total_fees_collected.saturating_add(
        fee_amount,
    );
    let fee = if fee_amount > 0 {
        Some(Transfer { from: Holder::Market, to: Holder::Platform, amount: fee_amount })
    } else {
        None
    };
    Ok(PlacedBet { bet, deposit: Transfer { from: Holder::User, to: Holder::Market, amount }, fee })
}

/// Places a bet of gross `amount` on `side` at the time that the runtime's
/// clock shows: `place_bet_at` for that time.
///
/// A market that is not active refuses the bet before the clock is read.
pub fn place_bet(accounts: &mut PlaceBet, amount: u64, side: BetSide) -> (r: Result<
    PlacedBet,
    Failure,
>)
    ensures
        old(accounts).market.status != MarketStatus::Active ==> r == Err::<PlacedBet, Failure>(
            Failure::Rejected(ErrorCode::MarketNotActive),
        ),
        old(accounts).market.status == MarketStatus::Active ==> (r == Err::<PlacedBet, Failure>(
            Failure::ClockUnavailable,
        ) && *final(accounts) == *old(accounts)) || (exists|now: i64| #[trigger]
            placed_at(*old(accounts), now, amount, side, r, *final(accounts))),
        r.is_err() ==> *final(accounts) == *old(accounts),
        old(accounts).market.wf() ==> final(accounts).market.wf(),
        old(accounts).market.status == MarketStatus::Resolved ==> final(accounts).market == old(
            accounts,
        ).market,
        final(accounts).market.yes_pool >= old(accounts).market.yes_pool,
        final(accounts).market.no_pool >= old(accounts).market.no_pool,
{
    if accounts.market.status != MarketStatus::Active {
        return Err(Failure::Rejected(ErrorCode::MarketNotActive));
    }
    match unix_timestamp() {
        None => Err(Failure::ClockUnavailable),
        Some(now) => place_bet_at(accounts, now, amount, side),
    }
}

/// What a call of `resolve_market_at` at time `now` does: the result `r`,
/// and the records `after` the call for those `before` it.
pub open spec fn resolved_at(
    before: ResolveMarket,
    now: i64,
    result: BetSide,
    r: Result<(), Failure>,
    after: ResolveMarket,
) -> bool {
    match before.market.resolve_refusal(before.resolver, now) {
        Some(e) => r == Err::<(), Failure>(e) && after == before,
        None => r.is_ok() && after == (ResolveMarket {
            market: before.market.resolved_as(result),
            ..before
        }),
    }
}

/// Resolves the market with `result` at time `now`: once, and for good.
///
/// Refused where `now` is before the closing time, where the market is not
/// active, and where the caller did not create the market, in this order.
pub fn resolve_market_at(accounts: &mut ResolveMarket, now: i64, result: BetSide) -> (r: Result<
    (),
    Failure,
>)
    ensures
        resolved_at(*old(accounts), now, result, r, *final(accounts)),
        old(accounts).market.wf() ==> final(accounts).market.wf(),
        old(accounts).market.status == MarketStatus::Resolved ==> final(accounts).market == old(
            accounts,
        ).market,
{
    let resolver = accounts.resolver;
    accounts.market.resolve(&resolver, now, result)
}

/// Resolves the market with `result` at the time that the runtime's clock
/// shows: `resolve_market_at` for that time.
pub fn resolve_market(accounts: &mut ResolveMarket, result: BetSide) -> (r: Result<(), Failure>)
    ensures
        (r == Err::<(), Failure>(Failure::ClockUnavailable) && *final(accounts) == *old(accounts))
            || (exists|now: i64| #[trigger]
            resolved_at(*old(accounts), now, result, r, *final(accounts))),
        r.is_err() ==> *final(accounts) == *old(accounts),
        old(accounts).market.status != MarketStatus::Active || old(accounts).resolver != old(
            accounts,
        ).market.creator ==> r.is_err(),
        old(accounts).market.wf() ==> final(accounts).market.wf(),
{
    match unix_timestamp() {
        None => Err(Failure::ClockUnavailable),
        Some(now) => resolve_market_at(accounts, now, result),
    }
}

/// Why the bet record cannot be paid out: the market is not resolved, the
/// bet lost, the record was paid out before, the record or the position is
/// not the caller's in this market, or the payout cannot be computed.
pub open spec fn claim_refusal(a: ClaimWinnings) -> Option<Failure> {
    if a.market.status != MarketStatus::Resolved {
        Some(Failure::Rejected(ErrorCode::MarketNotResolved))
    } else if a.market.result != Some(a.bet.side) {
        Some(Failure::Rejected(ErrorCode::NotWinningBet))
    } else if a.bet.claimed {
        Some(Failure::Rejected(ErrorCode::AlreadyClaimed))
    } else if !a.bet.belongs_to(a.market_key, a.user) || !a.position.belongs_to(
        a.market_key,
        a.user,
    ) {
        Some(Failure::Unauthorized)
    } else if a.market.pool(a.bet.side) == 0 {
        Some(Failure::EmptyWinningPool)
    } else if a.market.payout_for(a.bet.side, a.bet.amount) > u64::MAX {
        Some(Failure::Overflow)
    } else {
        None
    }
}

/// The records after the bet record was paid out.
pub open spec fn after_claim(a: ClaimWinnings) -> ClaimWinnings {
    ClaimWinnings {
        position: a.position.without_stake(a.bet.side, a.bet.amount),
        bet: Bet { claimed: true, ..a.bet },
        ..a
    }
}

/// What a claim that is not refused pays, and what it found amiss.
pub open spec fn claimed(a: ClaimWinnings) -> Claimed
    recommends
        claim_refusal(a).is_none(),
{
    Claimed {
        payout: Transfer {
            from: Holder::Market,
            to: Holder::User,
            amount: a.market.payout_for(a.bet.side, a.bet.amount) as u64,
        },
        shortfall: if a.bet.amount > a.position.stake(a.bet.side) {
            (a.bet.amount - a.position.stake(a.bet.side)) as u64
        } else {
            0
        },
    }
}

/// Pays out one winning bet record: its share of the combined pool.
///
/// Refused where the market is not resolved, where the bet is on the other
/// side, where the record was paid out before, and where the record or the
/// position is not the caller's in this market, in this order. The record is
/// then marked as claimed and its stake leaves the position, which never
/// goes below zero.
pub fn claim_winnings(accounts: &mut ClaimWinnings) -> (r: Result<Claimed, Failure>)
    ensures
        match claim_refusal(*old(accounts)) {
            Some(e) => r == Err::<Claimed, Failure>(e) && *final(accounts) == *old(accounts),
            None => r == Ok::<Claimed, Failure>(claimed(*old(accounts))) && *final(accounts)
                == after_claim(*old(accounts)),
        },
        final(accounts).market == old(accounts).market,
        old(accounts).bet.claimed ==> r.is_err() && final(accounts).bet.claimed,
        r.is_ok() ==> !old(accounts).bet.claimed && final(accounts).bet.claimed,
{
    if accounts.market.status != MarketStatus::Resolved {
        return Err(Failure::Rejected(ErrorCode::MarketNotResolved));
    }
    let side = accounts.bet.side;
    let wins = match accounts.market.result {
        Some(result) => result == side,
        None => false,
    };
    if !wins {
        return Err(Failure::Rejected(ErrorCode::NotWinningBet));
    }
    if accounts.bet.claimed {
        return Err(Failure::Rejected(ErrorCode::AlreadyClaimed));
    }
    if !accounts.bet.is_of(&accounts.market_key, &accounts.user) || !accounts.position.is_of(
        &accounts.market_key,
        &accounts.user,
    ) {
        return Err(Failure::Unauthorized);
    }
    let (held, winning_pool) = match side {
        BetSide::Yes => (accounts.position.yes_amount, accounts.market.yes_pool),
        BetSide::No => (accounts.position.no_amount, accounts.market.no_pool),
    };
    let stake: u64 = accounts.bet.amount;
    let winnings: u64 = match payout(
        accounts.market.yes_pool,
        accounts.market.no_pool,
        winning_pool,
        stake,
    ) {
        Err(e) => {
            return Err(e);
        },
        Ok(w) => w,
    };
    let shortfall: u64 = if stake > held {
        stake - held
    } else {
        0
    };
    accounts.bet.claimed = true;
    match side {
        BetSide::Yes => {
            accounts.position.yes_amount = held.saturating_sub(stake);
        },
        BetSide::No => {
            accounts.position.no_amount = held.saturating_sub(stake);
        },
    }
    Ok(
        Claimed {
            payout: Transfer { from: Holder::Market, to: Holder::User, amount: winnings },
            shortfall,
        },
    )
}

/// The position's stake on the side that won; zero where there is no result.
pub open spec fn winning_stake(market: Market, position: Position) -> u64 {
    match market.result {
        Some(side) => position.stake(side),
        None => 0,
    }
}

/// Why the position cannot be paid out: the market is not resolved, the
/// position holds nothing on the winning side, it is not the caller's in
/// this market, or the payout cannot be computed.
pub open spec fn claim_all_refusal(a: ClaimAllWinnings) -> Option<Failure> {
    if a.market.status != MarketStatus::Resolved {
        Some(Failure::Rejected(ErrorCode::MarketNotResolved))
    } else if winning_stake(a.market, a.position) == 0 {
        Some(Failure::Rejected(ErrorCode::NoWinningsToClaim))
    } else if !a.position.belongs_to(a.market_key, a.user) {
        Some(Failure::Unauthorized)
    } else if a.market.pool(a.market.result.unwrap()) == 0 {
        Some(Failure::EmptyWinningPool)
    } else if a.market.payout_for(a.market.result.unwrap(), winning_stake(a.market, a.position))
        > u64::MAX {
        Some(Failure::Overflow)
    } else {
        None
    }
}

/// The records after the position was paid out.
pub open spec fn after_claim_all(a: ClaimAllWinnings) -> ClaimAllWinnings
    recommends
        a.market.result.is_some(),
{
    ClaimAllWinnings { position: a.position.cleared(a.market.result.unwrap()), ..a }
}

/// Pays out a position's whole stake on the winning side in one step.
///
/// Refused where the market is not resolved, where the position holds
/// nothing on the winning side, as that of a user who only bet on the other
/// side does, and where the position is not the caller's in this market, in
/// this order. The winning side of the position is then zero.
pub fn claim_all_winnings(accounts: &mut ClaimAllWinnings) -> (r: Result<Transfer, Failure>)
    ensures
        match claim_all_refusal(*old(accounts)) {
            Some(e) => r == Err::<Transfer, Failure>(e) && *final(accounts) == *old(accounts),
            None => r == Ok::<Transfer, Failure>(
                Transfer {
                    from: Holder::Market,
                    to: Holder::User,
                    amount: old(accounts).market.payout_for(
                        old(accounts).market.result.unwrap(),
                        winning_stake(old(accounts).market, old(accounts).position),
                    ) as u64,
                },
            ) && *final(accounts) == after_claim_all(*old(accounts)),
        },
        final(accounts).market == old(accounts).market,
        r matches Ok(paid) ==> paid.amount >= winning_stake(
            old(accounts).market,
            old(accounts).position,
        ) > 0,
{
    if accounts.market.status != MarketStatus::Resolved {
        return Err(Failure::Rejected(ErrorCode::MarketNotResolved));
    }
    let side = match accounts.market.result {
        Some(result) => result,
        None => {
            return Err(Failure::Rejected(ErrorCode::NoWinningsToClaim));
        },
    };
    let (stake, winning_pool) = match side {
        BetSide::Yes => (accounts.position.yes_amount, accounts.market.yes_pool),
        BetSide::No => (accounts.position.no_amount, accounts.market.no_pool),
    };
    if stake == 0 {
        return Err(Failure::Rejected(ErrorCode::NoWinningsToClaim));
    }
    if !accounts.position.is_of(&accounts.market_key, &accounts.user) {
        return Err(Failure::Unauthorized);
    }
    proof {
        if winning_pool > 0 {
            lemma_payout_covers_stake(
                accounts.market.total_pool(),
                stake as nat,
                winning_pool as nat,
            );
        }
    }
    let total_winnings: u64 = match payout(
        accounts.market.yes_pool,
        accounts.market.no_pool,
        winning_pool,
        stake,
    ) {
        Err(e) => {
            return Err(e);
        },
        Ok(w) => w,
    };
    match side {
        BetSide::Yes => {
            accounts.position.yes_amount = 0;
        },
        BetSide::No => {
            accounts.position.no_amount = 0;
        },
    }
    Ok(Transfer { from: Holder::Market, to: Holder::User, amount: total_winnings })
}

} // verus!
