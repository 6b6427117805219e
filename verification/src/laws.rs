//! What holds of the ledger over any number of operations.
//!
//! The operations of `extended` say what one call does. The statements here
//! are about many calls: the ids that a registry hands out, the balance
//! between a market's pools, its bet records and its users' positions, the
//! finality of a resolution, and the sum of all payouts.

use vstd::prelude::*;
use crate::errors::{ErrorCode, Failure};
use crate::extended::{
    after_bet, after_claim, after_claim_all, bet_refusal, claim_all_refusal, claim_refusal,
    fresh_registry, placed_bet, Bet, ClaimAllWinnings, ClaimWinnings, Global, PlaceBet, Position,
};
use crate::identity::Pubkey;
use crate::market::{BetSide, Market, MarketStatus};
use crate::settlement::payout_of;

verus! {

/// The registry after `n` markets were created in it.
pub open spec fn registry_after(registry: Global, n: nat) -> Global
    decreases n,
{
    if n == 0 {
        registry
    } else {
        registry_after(registry, (n - 1) as nat).with_market()
    }
}

/// Counting from zero, the `k`-th market created in a new registry gets the
/// id `k`: ids count up from zero without a gap.
pub proof fn lemma_market_ids_count_up(authority: Pubkey, k: nat)
    requires
        k <= u64::MAX,
    ensures
        registry_after(fresh_registry(authority), k).market_count == k,
    decreases k,
{
    if k > 0 {
        lemma_market_ids_count_up(authority, (k - 1) as nat);
    }
}

/// Two markets created in one registry never share an id.
pub proof fn lemma_market_ids_never_repeat(authority: Pubkey, i: nat, j: nat)
    requires
        i <= u64::MAX,
        j <= u64::MAX,
        i != j,
    ensures
        registry_after(fresh_registry(authority), i).market_count != registry_after(
            fresh_registry(authority),
            j,
        ).market_count,
{
    lemma_market_ids_count_up(authority, i);
    lemma_market_ids_count_up(authority, j);
}

/// The registry of the ledger without fees after `n` markets were created
/// in it.
pub open spec fn basic_registry_after(registry: crate::basic::Global, n: nat) -> crate::basic::Global
    decreases n,
{
    if n == 0 {
        registry
    } else {
        basic_registry_after(registry, (n - 1) as nat).with_market()
    }
}

/// In the ledger without fees, too, the `k`-th market created in a new
/// registry gets the id `k`.
pub proof fn lemma_basic_market_ids_count_up(authority: Pubkey, k: nat)
    requires
        k <= u64::MAX,
    ensures
        basic_registry_after(crate::basic::fresh_registry(authority), k).market_count == k,
    decreases k,
{
    if k > 0 {
        lemma_basic_market_ids_count_up(authority, (k - 1) as nat);
    }
}

/// One call of `place_bet_at`, by whom and with what.
pub struct BetCall {
    pub user: Pubkey,
    /// The asset that the caller's funding account holds.
    pub mint: Pubkey,
    pub now: i64,
    pub amount: u64,
    pub side: BetSide,
}

/// Everything that is stored for one market: the market, the registry, the
/// position of every user and the bet records in the order they were made.
pub struct Book {
    pub market: Market,
    pub registry: Global,
    pub positions: Map<Pubkey, Position>,
    pub records: Seq<Bet>,
}

/// The book of a market in which nobody has bet: every position is `blank`.
pub open spec fn opening_book(market: Market, registry: Global, blank: Position) -> Book {
    Book {
        market,
        registry,
        positions: Map::new(|user: Pubkey| true, |user: Pubkey| blank),
        records: Seq::empty(),
    }
}

/// The records that `place_bet_at` is handed for `call`.
pub open spec fn accounts_for(book: Book, key: Pubkey, call: BetCall) -> PlaceBet {
    PlaceBet {
        position: book.positions[call.user],
        market: book.market,
        global: book.registry,
        user: call.user,
        market_key: key,
        user_token_mint: call.mint,
    }
}

/// The book after one call of `place_bet_at`: unchanged where the bet is
/// refused, and else with what the call wrote and the new bet record.
pub open spec fn book_after_call(book: Book, key: Pubkey, call: BetCall) -> Book {
    let accounts = accounts_for(book, key, call);
    if bet_refusal(accounts, call.now, call.amount, call.side).is_some() {
        book
    } else {
        let written = after_bet(accounts, call.now, call.amount, call.side);
        Book {
            market: written.market,
            registry: written.global,
            positions: book.positions.insert(call.user, written.position),
            records: book.records.push(
                placed_bet(accounts, call.now, call.amount, call.side).bet,
            ),
        }
    }
}

/// The book after the calls of `calls`, in their order.
pub open spec fn book_after(book: Book, key: Pubkey, calls: Seq<BetCall>) -> Book
    decreases calls.len(),
{
    if calls.len() == 0 {
        book
    } else {
        book_after_call(book_after(book, key, calls.drop_last()), key, calls.last())
    }
}

/// The stakes of all bet records together.
pub open spec fn recorded_total(records: Seq<Bet>) -> nat
    decreases records.len(),
{
    if records.len() == 0 {
        0
    } else {
        recorded_total(records.drop_last()) + records.last().amount as nat
    }
}

/// What the users of `users` hold on `side`, all together.
pub open spec fn side_total(positions: Map<Pubkey, Position>, users: Seq<Pubkey>, side: BetSide) -> nat
    decreases users.len(),
{
    if users.len() == 0 {
        0
    } else {
        side_total(positions, users.drop_last(), side) + positions[users.last()].stake(side) as nat
    }
}

/// A book whose pools, records and positions agree.
pub open spec fn balanced(book: Book, key: Pubkey, users: Seq<Pubkey>) -> bool {
    &&& book.market.yes_pool == side_total(book.positions, users, BetSide::Yes)
    &&& book.market.no_pool == side_total(book.positions, users, BetSide::No)
    &&& book.market.yes_pool + book.market.no_pool == recorded_total(book.records)
    &&& forall|user: Pubkey| #[trigger] book.positions.dom().contains(user)
    &&& forall|user: Pubkey|
        {
            let p = #[trigger] book.positions[user];
            p.belongs_to(key, user) || (p.is_vacant() && p.yes_amount == 0 && p.no_amount == 0)
        }
}

proof fn lemma_side_total_same(
    positions: Map<Pubkey, Position>,
    users: Seq<Pubkey>,
    side: BetSide,
    user: Pubkey,
    position: Position,
)
    requires
        !users.contains(user),
    ensures
        side_total(positions.insert(user, position), users, side) == side_total(
            positions,
            users,
            side,
        ),
    decreases users.len(),
{
    if users.len() > 0 {
        let rest = users.drop_last();
        assert(users[users.len() - 1] == users.last());
        assert(forall|i: int| 0 <= i < rest.len() ==> rest[i] == users[i]);
        assert(!rest.contains(user));
        lemma_side_total_same(positions, rest, side, user, position);
    }
}

proof fn lemma_side_total_insert(
    positions: Map<Pubkey, Position>,
    users: Seq<Pubkey>,
    side: BetSide,
    user: Pubkey,
    position: Position,
)
    requires
        users.no_duplicates(),
        users.contains(user),
        positions.dom().contains(user),
    ensures
        side_total(positions.insert(user, position), users, side) + positions[user].stake(side)
            == side_total(positions, users, side) + position.stake(side),
    decreases users.len(),
{
    let rest = users.drop_last();
    let last = users.last();
    assert(forall|i: int| 0 <= i < rest.len() ==> rest[i] == users[i]);
    assert(rest.no_duplicates());
    if last == user {
        assert(!rest.contains(user)) by {
            if rest.contains(user) {
                let i = choose|i: int| 0 <= i < rest.len() && rest[i] == user;
                assert(users[i] == users[users.len() - 1]);
            }
        }
        lemma_side_total_same(positions, rest, side, user, position);
    } else {
        let i = choose|i: int| 0 <= i < users.len() && users[i] == user;
        assert(rest[i] == user);
        assert(rest.contains(user));
        lemma_side_total_insert(positions, rest, side, user, position);
    }
}

proof fn lemma_call_keeps_balance(book: Book, key: Pubkey, users: Seq<Pubkey>, call: BetCall)
    requires
        balanced(book, key, users),
        !key.is_zero(),
        users.no_duplicates(),
        users.contains(call.user),
    ensures
        balanced(book_after_call(book, key, call), key, users),
{
    let accounts = accounts_for(book, key, call);
    if bet_refusal(accounts, call.now, call.amount, call.side).is_none() {
        let after = book_after_call(book, key, call);
        let written = after_bet(accounts, call.now, call.amount, call.side);
        let held = book.positions[call.user];
        assert(book.positions.dom().contains(call.user));
        assert(held.opened(key, call.user).yes_amount == held.yes_amount);
        assert(held.opened(key, call.user).no_amount == held.no_amount);
        assert(written.position.belongs_to(key, call.user));
        lemma_side_total_insert(book.positions, users, BetSide::Yes, call.user, written.position);
        lemma_side_total_insert(book.positions, users, BetSide::No, call.user, written.position);
        assert(after.records.drop_last() == book.records);
        assert forall|user: Pubkey|
            {
                let p = #[trigger] after.positions[user];
                p.belongs_to(key, user) || (p.is_vacant() && p.yes_amount == 0 && p.no_amount
                    == 0)
            } by {
            if user != call.user {
                assert(after.positions[user] == book.positions[user]);
            }
        }
        assert forall|user: Pubkey| #[trigger] after.positions.dom().contains(user) by {
            assert(book.positions.dom().contains(user));
        }
    }
}

proof fn lemma_side_total_of_blank(blank: Position, users: Seq<Pubkey>, side: BetSide)
    requires
        blank.yes_amount == 0,
        blank.no_amount == 0,
    ensures
        side_total(Map::new(|user: Pubkey| true, |user: Pubkey| blank), users, side) == 0,
    decreases users.len(),
{
    if users.len() > 0 {
        lemma_side_total_of_blank(blank, users.drop_last(), side);
    }
}

/// Pools, records and positions stay in balance over any calls of
/// `place_bet_at`, accepted or refused, on a market that started empty.
pub proof fn lemma_calls_keep_balance(
    market: Market,
    registry: Global,
    blank: Position,
    key: Pubkey,
    users: Seq<Pubkey>,
    calls: Seq<BetCall>,
)
    requires
        market.yes_pool == 0,
        market.no_pool == 0,
        blank.is_vacant(),
        blank.yes_amount == 0,
        blank.no_amount == 0,
        !key.is_zero(),
        users.no_duplicates(),
        forall|i: int| 0 <= i < calls.len() ==> users.contains(#[trigger] calls[i].user),
    ensures
        balanced(book_after(opening_book(market, registry, blank), key, calls), key, users),
    decreases calls.len(),
{
    let start = opening_book(market, registry, blank);
    if calls.len() == 0 {
        lemma_side_total_of_blank(blank, users, BetSide::Yes);
        lemma_side_total_of_blank(blank, users, BetSide::No);
    } else {
        let earlier = calls.drop_last();
        assert(forall|i: int| 0 <= i < earlier.len() ==> earlier[i] == calls[i]);
        lemma_calls_keep_balance(market, registry, blank, key, users, earlier);
        assert(users.contains(calls[calls.len() - 1].user));
        lemma_call_keeps_balance(book_after(start, key, earlier), key, users, calls.last());
    }
}

/// Pool conservation. On a market that started with empty pools, after any
/// calls of `place_bet_at` the two pools together equal the stakes of all bet
/// records, and equal what all users hold in their positions on both sides.
/// `users` lists every caller once; `key`, under which the market is stored,
/// is not the all-zero identity, which marks a position as never written.
pub proof fn lemma_pools_are_conserved(
    market: Market,
    registry: Global,
    blank: Position,
    key: Pubkey,
    users: Seq<Pubkey>,
    calls: Seq<BetCall>,
)
    requires
        market.yes_pool == 0,
        market.no_pool == 0,
        blank.is_vacant(),
        blank.yes_amount == 0,
        blank.no_amount == 0,
        !key.is_zero(),
        users.no_duplicates(),
        forall|i: int| 0 <= i < calls.len() ==> users.contains(#[trigger] calls[i].user),
    ensures
        ({
            let book = book_after(opening_book(market, registry, blank), key, calls);
            &&& book.market.total_pool() == recorded_total(book.records)
            &&& book.market.total_pool() == side_total(book.positions, users, BetSide::Yes)
                + side_total(book.positions, users, BetSide::No)
        }),
{
    lemma_calls_keep_balance(market, registry, blank, key, users, calls);
}

/// No betting after close: on an active market, a bet at or after the
/// closing time is refused as `MarketClosed`, whoever places it, with
/// whatever asset, amount and side.
pub proof fn lemma_no_bet_after_close(accounts: PlaceBet, now: i64, amount: u64, side: BetSide)
    requires
        accounts.market.status == MarketStatus::Active,
        now >= accounts.market.closing_time,
    ensures
        bet_refusal(accounts, now, amount, side) == Some(
            Failure::Rejected(ErrorCode::MarketClosed),
        ),
{
}

/// A resolution is final: a resolved market refuses every bet and every
/// further resolution, so neither changes its status or its result. Claims
/// leave the market as it is in any case.
pub proof fn lemma_resolution_is_final(
    accounts: PlaceBet,
    now: i64,
    amount: u64,
    bet_side: BetSide,
    resolver: Pubkey,
    later: i64,
    claim: ClaimWinnings,
)
    requires
        accounts.market.status == MarketStatus::Resolved,
    ensures
        bet_refusal(accounts, now, amount, bet_side) == Some(
            Failure::Rejected(ErrorCode::MarketNotActive),
        ),
        accounts.market.resolve_refusal(resolver, later).is_some(),
        after_claim(claim).market == claim.market,
{
}

/// No operation cancels a market: a market that is not cancelled is not
/// cancelled after a bet or a resolution, accepted or refused, and a new
/// market is active.
pub proof fn lemma_no_operation_cancels(
    accounts: PlaceBet,
    now: i64,
    amount: u64,
    bet_side: BetSide,
    result: BetSide,
)
    requires
        accounts.market.status != MarketStatus::Cancelled,
    ensures
        after_bet(accounts, now, amount, bet_side).market.status == accounts.market.status,
        accounts.market.resolved_as(result).status == MarketStatus::Resolved,
{
}

/// Single claim: once a bet record was paid out, another claim on it is
/// refused as `AlreadyClaimed`.
pub proof fn lemma_claim_only_once(accounts: ClaimWinnings)
    requires
        claim_refusal(accounts).is_none(),
    ensures
        claim_refusal(after_claim(accounts)) == Some(
            Failure::Rejected(ErrorCode::AlreadyClaimed),
        ),
{
}

/// Once a position was paid out, another claim on it is refused as
/// `NoWinningsToClaim`.
pub proof fn lemma_claim_all_only_once(accounts: ClaimAllWinnings)
    requires
        claim_all_refusal(accounts).is_none(),
    ensures
        claim_all_refusal(after_claim_all(accounts)) == Some(
            Failure::Rejected(ErrorCode::NoWinningsToClaim),
        ),
{
}

/// The stakes of `stakes` together.
pub open spec fn stakes_total(stakes: Seq<u64>) -> nat
    decreases stakes.len(),
{
    if stakes.len() == 0 {
        0
    } else {
        stakes_total(stakes.drop_last()) + stakes.last() as nat
    }
}

/// What the market pays for the stakes of `stakes` on `side`, all together.
pub open spec fn payouts_total(market: Market, side: BetSide, stakes: Seq<u64>) -> nat
    decreases stakes.len(),
{
    if stakes.len() == 0 {
        0
    } else {
        payouts_total(market, side, stakes.drop_last()) + market.payout_for(side, stakes.last())
    }
}

proof fn lemma_payout_rounds_down(total: nat, stake: nat, pool: nat)
    requires
        pool > 0,
    ensures
        pool * payout_of(total, stake, pool) <= total * stake,
        total * stake <= pool * payout_of(total, stake, pool) + pool - 1,
{
    let product = total * stake;
    assert(pool * (product / pool) <= product && product <= pool * (product / pool) + pool - 1)
        by (nonlinear_arith)
        requires
            pool > 0,
            product >= 0,
    ;
}

proof fn lemma_payouts_bracket(market: Market, side: BetSide, stakes: Seq<u64>)
    requires
        market.pool(side) > 0,
    ensures
        market.pool(side) * payouts_total(market, side, stakes) <= market.total_pool()
            * stakes_total(stakes),
        market.total_pool() * stakes_total(stakes) <= market.pool(side) * payouts_total(
            market,
            side,
            stakes,
        ) + stakes.len() * (market.pool(side) - 1),
    decreases stakes.len(),
{
    let pool = market.pool(side) as nat;
    let total = market.total_pool();
    if stakes.len() == 0 {
        assert(pool * 0 == 0 && total * 0 == 0 && 0 * (pool - 1) == 0) by (nonlinear_arith);
    } else {
        let rest = stakes.drop_last();
        let stake = stakes.last() as nat;
        lemma_payouts_bracket(market, side, rest);
        lemma_payout_rounds_down(total, stake, pool);
        let paid_rest = payouts_total(market, side, rest);
        let paid_last = payout_of(total, stake, pool);
        let staked_rest = stakes_total(rest);
        let n = rest.len();
        assert(pool * (paid_rest + paid_last) == pool * paid_rest + pool * paid_last)
            by (nonlinear_arith);
        assert(total * (staked_rest + stake) == total * staked_rest + total * stake)
            by (nonlinear_arith);
        assert((n + 1) * (pool - 1) == n * (pool - 1) + pool - 1) by (nonlinear_arith);
    }
}

/// Payout conservation. Where the stakes on the winning side, each claimed
/// once, make up the winning pool, the payouts together never exceed the
/// combined pool, and fall short of it by less than the number of claims:
/// each claim loses less than one unit to rounding.
pub proof fn lemma_payouts_are_conserved(market: Market, side: BetSide, stakes: Seq<u64>)
    requires
        market.pool(side) > 0,
        stakes_total(stakes) == market.pool(side),
    ensures
        payouts_total(market, side, stakes) <= market.total_pool(),
        market.total_pool() - payouts_total(market, side, stakes) < stakes.len(),
{
    lemma_payouts_bracket(market, side, stakes);
    let pool = market.pool(side) as nat;
    let total = market.total_pool();
    let paid = payouts_total(market, side, stakes);
    let n = stakes.len();
    assert(n >= 1) by {
        if n == 0 {
            assert(stakes_total(stakes) == 0);
        }
    }
    assert(paid <= total && total - paid < n) by (nonlinear_arith)
        requires
            pool > 0,
            n >= 1,
            pool * paid <= total * pool,
            total * pool <= pool * paid + n * (pool - 1),
    ;
}

} // verus!
