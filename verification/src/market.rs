//! One betting question: its pools, bet counts, status and result.

use vstd::prelude::*;
use crate::errors::{ErrorCode, Failure};
use crate::identity::Pubkey;
use crate::settlement::payout_of;

verus! {

/// Longest question, in bytes.
pub const MAX_QUESTION_LEN: usize = 200;

/// Longest description, in bytes.
pub const MAX_DESCRIPTION_LEN: usize = 200;

/// Longest asset symbol, in bytes.
pub const MAX_SYMBOL_LEN: usize = 20;

/// Longest asset name, in bytes.
pub const MAX_NAME_LEN: usize = 50;

/// Lifecycle of a market. `Cancelled` is declared but no operation enters it.
#[derive(Clone, Copy, Debug, PartialEq, Eq, Structural)]
pub enum MarketStatus {
    Active,
    Resolved,
    Cancelled,
}

/// One of the two outcomes of a question.
#[derive(Clone, Copy, Debug, PartialEq, Eq, Structural)]
pub enum BetSide {
    Yes,
    No,
}

impl BetSide {
    /// The side in words.
    pub open spec fn tag(self) -> Seq<char> {
        match self {
            BetSide::Yes => "yes"@,
            BetSide::No => "no"@,
        }
    }

    /// The tag by which a side enters the key of a bet record.
    pub fn to_string(&self) -> (s: String)
        ensures
            s@ == self.tag(),
    {
        match self {
            BetSide::Yes => "yes".to_owned(),
            BetSide::No => "no".to_owned(),
        }
    }
}

/// An account that holds value.
#[derive(Clone, Copy, Debug, PartialEq, Eq, Structural)]
pub enum Holder {
    /// The caller's own funding account.
    User,
    /// The market's holding account.
    Market,
    /// The platform's fee account.
    Platform,
}

/// A request to move `amount` of the market's asset from one account to
/// another. The library only states it; the caller carries it out.
#[derive(Clone, Copy, Debug, PartialEq, Eq, Structural)]
pub struct Transfer {
    pub from: Holder,
    pub to: Holder,
    pub amount: u64,
}

/// Length of a text in bytes, as it is stored.
pub open spec fn byte_len(text: Seq<char>) -> nat {
    vstd::utf8::encode_utf8(text).len()
}

/// Whether `text` takes at most `limit` bytes.
pub fn fits(text: &String, limit: usize) -> (b: bool)
    ensures
        b == (byte_len(text@) <= limit),
{
    text.as_str().as_bytes().len() <= limit
}

/// A yes/no question with its two pools.
#[derive(Clone, Debug, PartialEq, Eq)]
pub struct Market {
    /// The registry's market count when the market was created.
    pub id: u64,
    pub creator: Pubkey,
    pub question: String,
    pub description: String,
    /// From this time on no bet is taken and the market can be resolved.
    pub closing_time: i64,
    /// The only asset in which bets are taken.
    pub required_token_mint: Pubkey,
    pub required_token_symbol: String,
    pub required_token_name: String,
    pub status: MarketStatus,
    pub yes_pool: u64,
    pub no_pool: u64,
    pub yes_bets: u64,
    pub no_bets: u64,
    pub result: Option<BetSide>,
}

/// A new market: active, with empty pools and no result.
pub open spec fn new_market(
    id: u64,
    creator: Pubkey,
    question: String,
    description: String,
    closing_time: i64,
    required_token_mint: Pubkey,
    required_token_symbol: String,
    required_token_name: String,
) -> Market {
    Market {
        id,
        creator,
        question,
        description,
        closing_time,
        required_token_mint,
        required_token_symbol,
        required_token_name,
        status: MarketStatus::Active,
        yes_pool: 0,
        no_pool: 0,
        yes_bets: 0,
        no_bets: 0,
        result: None,
    }
}

impl Market {
    /// A resolved market has a result, an active one has none, and every
    /// text fits the space reserved for it.
    pub open spec fn wf(self) -> bool {
        &&& self.status == MarketStatus::Resolved ==> self.result.is_some()
        &&& self.status == MarketStatus::Active ==> self.result.is_none()
        &&& byte_len(self.question@) <= MAX_QUESTION_LEN
        &&& byte_len(self.description@) <= MAX_DESCRIPTION_LEN
        &&& byte_len(self.required_token_symbol@) <= MAX_SYMBOL_LEN
        &&& byte_len(self.required_token_name@) <= MAX_NAME_LEN
    }

    /// The combined pool.
    pub open spec fn total_pool(self) -> nat {
        (self.yes_pool + self.no_pool) as nat
    }

    /// The pool of one side.
    pub open spec fn pool(self, side: BetSide) -> u64 {
        match side {
            BetSide::Yes => self.yes_pool,
            BetSide::No => self.no_pool,
        }
    }

    /// The number of bets on one side.
    pub open spec fn bets(self, side: BetSide) -> u64 {
        match side {
            BetSide::Yes => self.yes_bets,
            BetSide::No => self.no_bets,
        }
    }

    /// Why a bet is refused at time `now` from an account that holds `mint`:
    /// the first of status, closing time and asset that fails, if any.
    pub open spec fn bet_refusal(self, now: i64, mint: Pubkey) -> Option<ErrorCode> {
        if self.status != MarketStatus::Active {
            Some(ErrorCode::MarketNotActive)
        } else if now >= self.closing_time {
            Some(ErrorCode::MarketClosed)
        } else if mint != self.required_token_mint {
            Some(ErrorCode::WrongToken)
        } else {
            None
        }
    }

    /// Whether one more bet of `net` on `side` still fits the counters.
    pub open spec fn has_room(self, side: BetSide, net: u64) -> bool {
        self.pool(side) + net <= u64::MAX && self.bets(side) < u64::MAX
    }

    /// The market with one more bet of `net` counted on `side`.
    pub open spec fn with_stake(self, side: BetSide, net: u64) -> Market
        recommends
            self.has_room(side, net),
    {
        match side {
            BetSide::Yes => Market {
                yes_pool: (self.yes_pool + net) as u64,
                yes_bets: (self.yes_bets + 1) as u64,
                ..self
            },
            BetSide::No => Market {
                no_pool: (self.no_pool + net) as u64,
                no_bets: (self.no_bets + 1) as u64,
                ..self
            },
        }
    }

    /// Why `resolver` may not resolve the market at time `now`: the first of
    /// closing time, status and identity that fails, if any.
    pub open spec fn resolve_refusal(self, resolver: Pubkey, now: i64) -> Option<Failure> {
        if now < self.closing_time {
            Some(Failure::Rejected(ErrorCode::MarketNotClosed))
        } else if self.status != MarketStatus::Active {
            Some(Failure::Rejected(ErrorCode::MarketNotActive))
        } else if resolver != self.creator {
            Some(Failure::Unauthorized)
        } else {
            None
        }
    }

    /// The market frozen with `result`.
    pub open spec fn resolved_as(self, result: BetSide) -> Market {
        Market { status: MarketStatus::Resolved, result: Some(result), ..self }
    }

    /// What a stake of `stake` on `side` is paid from this market.
    pub open spec fn payout_for(self, side: BetSide, stake: u64) -> nat
        recommends
            self.pool(side) > 0,
    {
        payout_of(self.total_pool(), stake as nat, self.pool(side) as nat)
    }

    /// A new market: active, with empty pools and no result.
    pub fn open(
        id: u64,
        creator: Pubkey,
        question: String,
        description: String,
        closing_time: i64,
        required_token_mint: Pubkey,
        required_token_symbol: String,
        required_token_name: String,
    ) -> (market: Market)
        ensures
            market == new_market(
                id,
                creator,
                question,
                description,
                closing_time,
                required_token_mint,
                required_token_symbol,
                required_token_name,
            ),
    {
        Market {
            id,
            creator,
            question,
            description,
            closing_time,
            required_token_mint,
            required_token_symbol,
            required_token_name,
            status: MarketStatus::Active,
            yes_pool: 0,
            no_pool: 0,
            yes_bets: 0,
            no_bets: 0,
            result: None,
        }
    }

    /// Decides whether a bet may be placed at time `now` from an account
    /// that holds the asset `mint`.
    pub fn check_bet(&self, now: i64, mint: &Pubkey) -> (r: Result<(), ErrorCode>)
        ensures
            match self.bet_refusal(now, *mint) {
                Some(e) => r == Err::<(), ErrorCode>(e),
                None => r.is_ok(),
            },
    {
        if self.status != MarketStatus::Active {
            return Err(ErrorCode::MarketNotActive);
        }
        if now >= self.closing_time {
            return Err(ErrorCode::MarketClosed);
        }
        if !mint.same(&self.required_token_mint) {
            return Err(ErrorCode::WrongToken);
        }
        Ok(())
    }

    /// Counts one more bet of `net` on `side`, unless a counter would
    /// overflow; then the market stays as it was.
    pub fn record_stake(&mut self, side: BetSide, net: u64) -> (r: Result<(), Failure>)
        ensures
            old(self).has_room(side, net) ==> r.is_ok() && *final(self) == old(self).with_stake(
                side,
                net,
            ),
            !old(self).has_room(side, net) ==> r == Err::<(), Failure>(Failure::Overflow)
                && *final(self) == *old(self),
    {
        match side {
            BetSide::Yes => {
                if net > u64::MAX - self.yes_pool || self.yes_bets == u64::MAX {
                    return Err(Failure::Overflow);
                }
                self.yes_pool = self.yes_pool + net;
                self.yes_bets = self.yes_bets + 1;
            },
            BetSide::No => {
                if net > u64::MAX - self.no_pool || self.no_bets == u64::MAX {
                    return Err(Failure::Overflow);
                }
                self.no_pool = self.no_pool + net;
                self.no_bets = self.no_bets + 1;
            },
        }
        Ok(())
    }

    /// Freezes the market with `result`, if the closing time has come, the
    /// market is still active and `resolver` created it.
    pub fn resolve(&mut self, resolver: &Pubkey, now: i64, result: BetSide) -> (r: Result<
        (),
        Failure,
    >)
        ensures
            match old(self).resolve_refusal(*resolver, now) {
                Some(e) => r == Err::<(), Failure>(e) && *final(self) == *old(self),
                None => r.is_ok() && *final(self) == old(self).resolved_as(result),
            },
            old(self).wf() ==> final(self).wf(),
    {
        if now < self.closing_time {
            return Err(Failure::Rejected(ErrorCode::MarketNotClosed));
        }
        if self.status != MarketStatus::Active {
            return Err(Failure::Rejected(ErrorCode::MarketNotActive));
        }
        if !resolver.same(&self.creator) {
            return Err(Failure::Unauthorized);
        }
        self.result = Some(result);
        self.status = MarketStatus::Resolved;
        Ok(())
    }
}

} // verus!
