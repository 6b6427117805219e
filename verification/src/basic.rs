//! The ledger without fees: one bet record per user and side, paid out
//! record by record.
//!
//! Every operation reads a named set of records, checks its preconditions in
//! a fixed order, and either writes all of its effects or none. Value is not
//! moved here: an operation that succeeds returns the transfer to request.

use vstd::prelude::*;
use crate::clock::unix_timestamp;
use crate::errors::{ErrorCode, Failure};
use crate::identity::Pubkey;
use crate::market::{
    byte_len, fits, new_market, BetSide, Holder, Market, MarketStatus, Transfer,
    MAX_DESCRIPTION_LEN, MAX_NAME_LEN, MAX_QUESTION_LEN, MAX_SYMBOL_LEN,
};
use crate::settlement::payout;

verus! {

/// The registry: the one record that all markets share.
#[derive(Clone, Copy, Debug, PartialEq, Eq)]
pub struct Global {
    pub authority: Pubkey,
    /// The id that the next market gets.
    pub market_count: u64,
    /// Lifetime stake; stops at the largest value.
    pub total_volume: u64,
}

/// One wager, as it was placed.
#[derive(Clone, Copy, Debug, PartialEq, Eq)]
pub struct Bet {
    pub market: Pubkey,
    pub user: Pubkey,
    pub amount: u64,
    pub side: BetSide,
    pub timestamp: i64,
}

/// A bet that was accepted: the record to store, one per user and side, and
/// the transfer to request.
#[derive(Clone, Copy, Debug, PartialEq, Eq)]
pub struct PlacedBet {
    /// The new bet record.
    pub bet: Bet,
    /// The stake, from the user to the market.
    pub deposit: Transfer,
}

/// Records of `initialize`.
#[derive(Clone, Copy, Debug, PartialEq, Eq)]
pub struct Initialize {
    pub authority: Pubkey,
}

/// Records of `create_market`.
#[derive(Clone, Copy, Debug, PartialEq, Eq)]
pub struct CreateMarket {
    pub global: Global,
    pub creator: Pubkey,
}

/// Records of `place_bet`.
#[derive(Clone, Debug, PartialEq, Eq)]
pub struct PlaceBet {
    pub market: Market,
    pub global: Global,
    pub user: Pubkey,
    /// The key under which `market` is stored.
    pub market_key: Pubkey,
    /// The asset that the caller's funding account holds.
    pub user_token_mint: Pubkey,
}

/// Records of `resolve_market`.
#[derive(Clone, Debug, PartialEq, Eq)]
pub struct ResolveMarket {
    pub market: Market,
    pub resolver: Pubkey,
}

/// Records of `claim_winnings`.
#[derive(Clone, Debug, PartialEq, Eq)]
pub struct ClaimWinnings {
    pub market: Market,
    pub bet: Bet,
    pub user: Pubkey,
    /// The key under which `market` is stored.
    pub market_key: Pubkey,
}

impl Global {
    /// The registry after one more market was created.
    pub open spec fn with_market(self) -> Global
        recommends
            self.market_count < u64::MAX,
    {
        Global { market_count: (self.market_count + 1) as u64, ..self }
    }

    /// The registry after a bet of `amount`.
    pub open spec fn with_bet(self, amount: u64) -> Global {
        Global {
            total_volume: if self.total_volume + amount > u64::MAX {
                u64::MAX
            } else {
                (self.total_volume + amount) as u64
            },
            ..self
        }
    }
}

/// The registry as `initialize` leaves it.
pub open spec fn fresh_registry(authority: Pubkey) -> Global {
    Global { authority, market_count: 0, total_volume: 0 }
}

/// Sets up the registry: no market yet, nothing staked, the caller as its
/// authority.
pub fn initialize(accounts: &Initialize) -> (r: Result<Global, Failure>)
    ensures
        r == Ok::<Global, Failure>(fresh_registry(accounts.authority)),
{
    Ok(Global { authority: accounts.authority, market_count: 0, total_volume: 0 })
}

/// Why a market with these texts cannot be created in `registry`.
pub open spec fn create_refusal(
    registry: Global,
    question: Seq<char>,
    description: Seq<char>,
    symbol: Seq<char>,
    name: Seq<char>,
) -> Option<Failure> {
    if byte_len(question) > MAX_QUESTION_LEN || byte_len(description) > MAX_DESCRIPTION_LEN
        || byte_len(symbol) > MAX_SYMBOL_LEN || byte_len(name) > MAX_NAME_LEN {
        Some(Failure::Rejected(ErrorCode::TextTooLong))
    } else if registry.market_count == u64::MAX {
        Some(Failure::Overflow)
    } else {
        None
    }
}

/// Creates a market under the registry's next id, with the caller as its
/// creator, and advances the registry. The closing time is taken as given,
/// also where it lies in the past.
pub fn create_market(
    accounts: &mut CreateMarket,
    question: String,
    description: String,
    closing_time: i64,
    required_token_mint: Pubkey,
    required_token_symbol: String,
    required_token_name: String,
) -> (r: Result<Market, Failure>)
    ensures
        match create_refusal(
            old(accounts).global,
            question@,
            description@,
            required_token_symbol@,
            required_token_name@,
        ) {
            Some(e) => r == Err::<Market, Failure>(e) && *final(accounts) == *old(accounts),
            None => {
                &&& r == Ok::<Market, Failure>(
                    new_market(
                        old(accounts).global.market_count,
                        old(accounts).creator,
                        question,
                        description,
                        closing_time,
                        required_token_mint,
                        required_token_symbol,
                        required_token_name,
                    ),
                )
                &&& r.unwrap().wf()
                &&& *final(accounts) == (CreateMarket {
                    global: old(accounts).global.with_market(),
                    ..*old(accounts)
                })
            },
        },
{
    if !fits(&question, MAX_QUESTION_LEN) || !fits(&description, MAX_DESCRIPTION_LEN) || !fits(
        &required_token_symbol,
        MAX_SYMBOL_LEN,
    ) || !fits(&required_token_name, MAX_NAME_LEN) {
        return Err(Failure::Rejected(ErrorCode::TextTooLong));
    }
    if accounts.global.market_count == u64::MAX {
        return Err(Failure::Overflow);
    }
    let market = Market::open(
        accounts.global.market_count,
        accounts.creator,
        question,
        description,
        closing_time,
        required_token_mint,
        required_token_symbol,
        required_token_name,
    );
    accounts.global.market_count = accounts.global.market_count + 1;
    Ok(market)
}

/// Why a bet of `amount` on `side` at time `now` is not accepted.
pub open spec fn bet_refusal(a: PlaceBet, now: i64, amount: u64, side: BetSide) -> Option<
    Failure,
> {
    match a.market.bet_refusal(now, a.user_token_mint) {
        Some(e) => Some(Failure::Rejected(e)),
        None => if !a.market.has_room(side, amount) {
            Some(Failure::Overflow)
        } else {
            None
        },
    }
}

/// The records after a bet that was accepted.
pub open spec fn after_bet(a: PlaceBet, now: i64, amount: u64, side: BetSide) -> PlaceBet {
    PlaceBet {
        market: a.market.with_stake(side, amount),
        global: a.global.with_bet(amount),
        ..a
    }
}

/// The record of a bet that was accepted, and the transfer it asks for.
pub open spec fn placed_bet(a: PlaceBet, now: i64, amount: u64, side: BetSide) -> PlacedBet {
    PlacedBet {
        bet: Bet { market: a.market_key, user: a.user, amount, side, timestamp: now },
        deposit: Transfer { from: Holder::User, to: Holder::Market, amount },
    }
}

/// What a call of `place_bet_at` at time `now` does: the result `r`, and the
/// records `after` the call for those `before` it.
pub open spec fn placed_at(
    before: PlaceBet,
    now: i64,
    amount: u64,
    side: BetSide,
    r: Result<PlacedBet, Failure>,
    after: PlaceBet,
) -> bool {
    match bet_refusal(before, now, amount, side) {
        Some(e) => r == Err::<PlacedBet, Failure>(e) && after == before,
        None => r == Ok::<PlacedBet, Failure>(placed_bet(before, now, amount, side)) && after
            == after_bet(before, now, amount, side),
    }
}

/// Places a bet of `amount` on `side` at time `now`.
///
/// Refused, in this order, where the market is not active, where `now` is
/// not before the closing time, and where the funding account holds another
/// asset. The whole amount goes to the new bet record and the market's pool.
pub fn place_bet_at(accounts: &mut PlaceBet, now: i64, amount: u64, side: BetSide) -> (r: Result<
    PlacedBet,
    Failure,
>)
    ensures
        placed_at(*old(accounts), now, amount, side, r, *final(accounts)),
        old(accounts).market.status == MarketStatus::Active && now >= old(
            accounts,
        ).market.closing_time ==> r == Err::<PlacedBet, Failure>(
            Failure::Rejected(ErrorCode::MarketClosed),
        ),
        old(accounts).market.wf() ==> final(accounts).market.wf(),
        old(accounts).market.status == MarketStatus::Resolved ==> final(accounts).market == old(
            accounts,
        ).market,
        final(accounts).market.yes_pool >= old(accounts).market.yes_pool,
        final(accounts).market.no_pool >= old(accounts).market.no_pool,
{
    match accounts.market.check_bet(now, &accounts.user_token_mint) {
        Err(e) => {
            return Err(Failure::Rejected(e));
        },
        Ok(_) => {},
    }
    match accounts.market.record_stake(side, amount) {
        Err(e) => {
            return Err(e);
        },
        Ok(_) => {},
    }
    let bet = Bet { market: accounts.market_key, user: accounts.user, amount, side, timestamp: now };
    accounts.global.total_volume = accounts.global.total_volume.saturating_add(amount);
    Ok(PlacedBet { bet, deposit: Transfer { from: Holder::User, to: Holder::Market, amount } })
}

/// Places a bet of `amount` on `side` at the time that the runtime's
/// clock shows: `place_bet_at` for that time.
///
/// A market that is not active refuses the bet before the clock is read.
pub fn place_bet(accounts: &mut PlaceBet, amount: u64, side: BetSide) -> (r: Result<
    PlacedBet,
    Failure,
>)
    ensures
        old(accounts).market.status != MarketStatus::Active ==> r == Err::<PlacedBet, Failure>(
            Failure::Rejected(ErrorCode::MarketNotActive),
        ),
        old(accounts).market.status == MarketStatus::Active ==> (r == Err::<PlacedBet, Failure>(
            Failure::ClockUnavailable,
        ) && *final(accounts) == *old(accounts)) || (exists|now: i64| #[trigger]
            placed_at(*old(accounts), now, amount, side, r, *final(accounts))),
        r.is_err() ==> *final(accounts) == *old(accounts),
        old(accounts).market.wf() ==> final(accounts).market.wf(),
        old(accounts).market.status == MarketStatus::Resolved ==> final(accounts).market == old(
            accounts,
        ).market,
        final(accounts).market.yes_pool >= old(accounts).market.yes_pool,
        final(accounts).market.no_pool >= old(accounts).market.no_pool,
{
    if accounts.market.status != MarketStatus::Active {
        return Err(Failure::Rejected(ErrorCode::MarketNotActive));
    }
    match unix_timestamp() {
        None => Err(Failure::ClockUnavailable),
        Some(now) => place_bet_at(accounts, now, amount, side),
    }
}

/// What a call of `resolve_market_at` at time `now` does: the result `r`,
/// and the records `after` the call for those `before` it.
pub open spec fn resolved_at(
    before: ResolveMarket,
    now: i64,
    result: BetSide,
    r: Result<(), Failure>,
    after: ResolveMarket,
) -> bool {
    match before.market.resolve_refusal(before.resolver, now) {
        Some(e) => r == Err::<(), Failure>(e) && after == before,
        None => r.is_ok() && after == (ResolveMarket {
            market: before.market.resolved_as(result),
            ..before
        }),
    }
}

/// Resolves the market with `result` at time `now`: once, and for good.
///
/// Refused where `now` is before the closing time, where the market is not
/// active, and where the caller did not create the market, in this order.
pub fn resolve_market_at(accounts: &mut ResolveMarket, now: i64, result: BetSide) -> (r: Result<
    (),
    Failure,
>)
    ensures
        resolved_at(*old(accounts), now, result, r, *final(accounts)),
        old(accounts).market.wf() ==> final(accounts).market.wf(),
        old(accounts).market.status == MarketStatus::Resolved ==> final(accounts).market == old(
            accounts,
        ).market,
{
    let resolver = accounts.resolver;
    accounts.market.resolve(&resolver, now, result)
}

/// Resolves the market with `result` at the time that the runtime's clock
/// shows: `resolve_market_at` for that time.
pub fn resolve_market(accounts: &mut ResolveMarket, result: BetSide) -> (r: Result<(), Failure>)
    ensures
        (r == Err::<(), Failure>(Failure::ClockUnavailable) && *final(accounts) == *old(accounts))
            || (exists|now: i64| #[trigger]
            resolved_at(*old(accounts), now, result, r, *final(accounts))),
        r.is_err() ==> *final(accounts) == *old(accounts),
        old(accounts).market.status != MarketStatus::Active || old(accounts).resolver != old(
            accounts,
        ).market.creator ==> r.is_err(),
        old(accounts).market.wf() ==> final(accounts).market.wf(),
{
    match unix_timestamp() {
        None => Err(Failure::ClockUnavailable),
        Some(now) => resolve_market_at(accounts, now, result),
    }
}

/// Why the bet record cannot be paid out: the market is not resolved, the
/// bet lost, the record is not the caller's in this market, or the payout
/// cannot be computed.
pub open spec fn claim_refusal(a: ClaimWinnings) -> Option<Failure> {
    if a.market.status != MarketStatus::Resolved {
        Some(Failure::Rejected(ErrorCode::MarketNotResolved))
    } else if a.market.result != Some(a.bet.side) {
        Some(Failure::Rejected(ErrorCode::NotWinningBet))
    } else if a.bet.market != a.market_key || a.bet.user != a.user {
        Some(Failure::Unauthorized)
    } else if a.market.pool(a.bet.side) == 0 {
        Some(Failure::EmptyWinningPool)
    } else if a.market.payout_for(a.bet.side, a.bet.amount) > u64::MAX {
        Some(Failure::Overflow)
    } else {
        None
    }
}

/// Computes the payout of one winning bet record: its share of the combined
/// pool. Nothing is written: the record carries no mark of a claim.
///
/// Refused where the market is not resolved, where the bet is on the other
/// side, and where the record is not the caller's in this market, in this
/// order.
pub fn claim_winnings(accounts: &ClaimWinnings) -> (r: Result<Transfer, Failure>)
    ensures
        match claim_refusal(*accounts) {
            Some(e) => r == Err::<Transfer, Failure>(e),
            None => r == Ok::<Transfer, Failure>(
                Transfer {
                    from: Holder::Market,
                    to: Holder::User,
                    amount: accounts.market.payout_for(accounts.bet.side, accounts.bet.amount) as u64,
                },
            ),
        },
{
    if accounts.market.status != MarketStatus::Resolved {
        return Err(Failure::Rejected(ErrorCode::MarketNotResolved));
    }
    let side = accounts.bet.side;
    let wins = match accounts.market.result {
        Some(result) => result == side,
        None => false,
    };
    if !wins {
        return Err(Failure::Rejected(ErrorCode::NotWinningBet));
    }
    if !accounts.bet.market.same(&accounts.market_key) || !accounts.bet.user.same(&accounts.user) {
        return Err(Failure::Unauthorized);
    }
    let winning_pool = match side {
        BetSide::Yes => accounts.market.yes_pool,
        BetSide::No => accounts.market.no_pool,
    };
    match payout(
        accounts.market.yes_pool,
        accounts.market.no_pool,
        winning_pool,
        accounts.bet.amount,
    ) {
        Err(e) => Err(e),
        Ok(winnings) => Ok(Transfer { from: Holder::Market, to: Holder::User, amount: winnings }),
    }
}

} // verus!
