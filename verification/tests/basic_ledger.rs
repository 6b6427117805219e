use prediction_market::basic::{
    claim_winnings, create_market, initialize, place_bet, place_bet_at, resolve_market,
    resolve_market_at, Bet, ClaimWinnings,
    CreateMarket, Global, Initialize, PlaceBet, ResolveMarket,
};
use prediction_market::errors::{ErrorCode, Failure};
use prediction_market::identity::Pubkey;
use prediction_market::market::{BetSide, Holder, Market, MarketStatus, Transfer};

fn id(n: u8) -> Pubkey {
    Pubkey::new([n; 32])
}

fn simple_market(global: &mut Global, closing_time: i64) -> Market {
    let mut accounts = CreateMarket { global: *global, creator: id(2) };
    let market = create_market(
        &mut accounts,
        "Will the launch succeed?".to_string(),
        "First attempt only".to_string(),
        closing_time,
        id(9),
        "SOL".to_string(),
        "Solana".to_string(),
    )
    .unwrap();
    *global = accounts.global;
    market
}

fn simple_registry() -> Global {
    initialize(&Initialize { authority: id(1) }).unwrap()
}

fn simple_bet_accounts(market: Market, global: Global) -> PlaceBet {
    PlaceBet { market, global, user: id(3), market_key: id(50), user_token_mint: id(9) }
}

fn settled(yes_pool: u64, no_pool: u64, result: BetSide) -> Market {
    let mut global = simple_registry();
    let mut market = simple_market(&mut global, 100);
    market.yes_pool = yes_pool;
    market.no_pool = no_pool;
    market.status = MarketStatus::Resolved;
    market.result = Some(result);
    market
}

#[test]
fn basic_initialize_starts_from_zero() {
    assert_eq!(simple_registry(), Global { authority: id(1), market_count: 0, total_volume: 0 });
}

#[test]
fn basic_create_market_assigns_consecutive_ids() {
    let mut global = simple_registry();
    for expected in 0u64..4 {
        let market = simple_market(&mut global, 100);
        assert_eq!(market.id, expected);
        assert_eq!(market.status, MarketStatus::Active);
        assert_eq!(market.result, None);
        assert_eq!(market.creator, id(2));
    }
    assert_eq!(global.market_count, 4);
}

#[test]
fn basic_create_market_rejects_long_text() {
    let mut accounts = CreateMarket { global: simple_registry(), creator: id(2) };
    let r = create_market(
        &mut accounts,
        String::new(),
        "d".repeat(201),
        100,
        id(9),
        String::new(),
        String::new(),
    );
    assert_eq!(r, Err(Failure::Rejected(ErrorCode::TextTooLong)));
    let r = create_market(
        &mut accounts,
        String::new(),
        String::new(),
        100,
        id(9),
        String::new(),
        "n".repeat(51),
    );
    assert_eq!(r, Err(Failure::Rejected(ErrorCode::TextTooLong)));
    assert_eq!(accounts.global.market_count, 0);
}

#[test]
fn basic_place_bet_stakes_the_whole_amount() {
    let mut global = simple_registry();
    let market = simple_market(&mut global, 100);
    let mut accounts = simple_bet_accounts(market, global);
    let placed = place_bet_at(&mut accounts, 10, 1000, BetSide::No).unwrap();
    assert_eq!(
        placed.bet,
        Bet { market: id(50), user: id(3), amount: 1000, side: BetSide::No, timestamp: 10 }
    );
    assert_eq!(
        placed.deposit,
        Transfer { from: Holder::User, to: Holder::Market, amount: 1000 }
    );
    assert_eq!(accounts.market.no_pool, 1000);
    assert_eq!(accounts.market.no_bets, 1);
    assert_eq!(accounts.market.yes_pool, 0);
    assert_eq!(accounts.market.yes_bets, 0);
    assert_eq!(accounts.global.total_volume, 1000);
}

#[test]
fn basic_place_bet_checks_in_order() {
    let mut global = simple_registry();
    let market = simple_market(&mut global, 100);

    let mut accounts = simple_bet_accounts(settled(1, 1, BetSide::Yes), global);
    accounts.user_token_mint = id(8);
    let r = place_bet_at(&mut accounts, 100, 5, BetSide::Yes);
    assert_eq!(r, Err(Failure::Rejected(ErrorCode::MarketNotActive)));

    let mut accounts = simple_bet_accounts(market.clone(), global);
    accounts.user_token_mint = id(8);
    let before = accounts.clone();
    let r = place_bet_at(&mut accounts, 100, 5, BetSide::Yes);
    assert_eq!(r, Err(Failure::Rejected(ErrorCode::MarketClosed)));
    assert_eq!(accounts, before);

    let r = place_bet_at(&mut accounts, 99, 5, BetSide::Yes);
    assert_eq!(r, Err(Failure::Rejected(ErrorCode::WrongToken)));
    assert_eq!(accounts, before);
}

#[test]
fn basic_place_bet_fails_loudly_on_a_full_pool() {
    let mut global = simple_registry();
    let mut market = simple_market(&mut global, 100);
    market.no_pool = u64::MAX;
    let mut accounts = simple_bet_accounts(market, global);
    let before = accounts.clone();
    assert_eq!(place_bet_at(&mut accounts, 10, 1, BetSide::No), Err(Failure::Overflow));
    assert_eq!(accounts, before);
}

#[test]
fn basic_resolve_market_checks_in_order() {
    let mut global = simple_registry();
    let market = simple_market(&mut global, 100);

    let mut stranger = ResolveMarket { market: market.clone(), resolver: id(7) };
    assert_eq!(
        resolve_market_at(&mut stranger, 50, BetSide::Yes),
        Err(Failure::Rejected(ErrorCode::MarketNotClosed))
    );
    assert_eq!(resolve_market_at(&mut stranger, 100, BetSide::Yes), Err(Failure::Unauthorized));
    assert_eq!(stranger.market, market);

    let mut accounts = ResolveMarket { market, resolver: id(2) };
    assert_eq!(
        resolve_market_at(&mut accounts, 99, BetSide::Yes),
        Err(Failure::Rejected(ErrorCode::MarketNotClosed))
    );
    assert_eq!(resolve_market_at(&mut accounts, 100, BetSide::Yes), Ok(()));
    assert_eq!(accounts.market.status, MarketStatus::Resolved);
    assert_eq!(accounts.market.result, Some(BetSide::Yes));
    assert_eq!(
        resolve_market_at(&mut accounts, 101, BetSide::No),
        Err(Failure::Rejected(ErrorCode::MarketNotActive))
    );
    assert_eq!(accounts.market.result, Some(BetSide::Yes));
}

#[test]
fn basic_claim_winnings_pays_the_share_of_the_pool() {
    let accounts = ClaimWinnings {
        market: settled(300, 700, BetSide::Yes),
        bet: Bet { market: id(50), user: id(3), amount: 100, side: BetSide::Yes, timestamp: 1 },
        user: id(3),
        market_key: id(50),
    };
    assert_eq!(
        claim_winnings(&accounts),
        Ok(Transfer { from: Holder::Market, to: Holder::User, amount: 333 })
    );
}

#[test]
fn basic_claim_winnings_checks_in_order() {
    let bet = Bet { market: id(50), user: id(3), amount: 100, side: BetSide::No, timestamp: 1 };
    let mut global = simple_registry();
    let open = simple_market(&mut global, 100);
    assert_eq!(
        claim_winnings(&ClaimWinnings { market: open, bet, user: id(3), market_key: id(50) }),
        Err(Failure::Rejected(ErrorCode::MarketNotResolved))
    );
    assert_eq!(
        claim_winnings(&ClaimWinnings { market: settled(300, 700, BetSide::Yes), bet, user: id(3), market_key: id(50) }),
        Err(Failure::Rejected(ErrorCode::NotWinningBet))
    );
    assert_eq!(
        claim_winnings(&ClaimWinnings { market: settled(300, 0, BetSide::No), bet, user: id(3), market_key: id(50) }),
        Err(Failure::EmptyWinningPool)
    );
}

#[test]
fn basic_sole_winner_takes_the_pool() {
    let accounts = ClaimWinnings {
        market: settled(300, 700, BetSide::Yes),
        bet: Bet { market: id(50), user: id(3), amount: 300, side: BetSide::Yes, timestamp: 1 },
        user: id(3),
        market_key: id(50),
    };
    assert_eq!(claim_winnings(&accounts).unwrap().amount, 1000);
}

#[test]
fn bet_side_to_string() {
    assert_eq!(BetSide::Yes.to_string(), "yes");
    assert_eq!(BetSide::No.to_string(), "no");
}

#[test]
fn basic_place_bet_refuses_an_inactive_market_before_the_clock() {
    let mut accounts = simple_bet_accounts(settled(1, 1, BetSide::Yes), simple_registry());
    let before = accounts.clone();
    let r = place_bet(&mut accounts, 5, BetSide::Yes);
    assert_eq!(r, Err(Failure::Rejected(ErrorCode::MarketNotActive)));
    assert_eq!(accounts, before);
}

#[test]
fn basic_operations_without_a_clock_change_nothing() {
    let mut global = simple_registry();
    let market = simple_market(&mut global, 100);
    let mut accounts = simple_bet_accounts(market.clone(), global);
    let before = accounts.clone();
    assert_eq!(place_bet(&mut accounts, 5, BetSide::Yes), Err(Failure::ClockUnavailable));
    assert_eq!(accounts, before);

    let mut resolution = ResolveMarket { market: market.clone(), resolver: id(2) };
    assert_eq!(resolve_market(&mut resolution, BetSide::No), Err(Failure::ClockUnavailable));
    assert_eq!(resolution.market, market);

    let mut stranger = ResolveMarket { market: market.clone(), resolver: id(4) };
    assert_eq!(resolve_market(&mut stranger, BetSide::No), Err(Failure::ClockUnavailable));
    assert_eq!(stranger.market, market);
}

#[test]
fn basic_claim_winnings_rejects_a_record_of_another_user() {
    let bet = Bet { market: id(50), user: id(3), amount: 100, side: BetSide::Yes, timestamp: 1 };
    let market = settled(300, 700, BetSide::Yes);
    let accounts = ClaimWinnings { market: market.clone(), bet, user: id(4), market_key: id(50) };
    assert_eq!(claim_winnings(&accounts), Err(Failure::Unauthorized));
    let accounts = ClaimWinnings { market, bet, user: id(3), market_key: id(51) };
    assert_eq!(claim_winnings(&accounts), Err(Failure::Unauthorized));
}
