//! Outcomes of a refused operation.

use vstd::prelude::*;

verus! {

/// A precondition of an operation that the caller did not meet.
#[derive(Clone, Copy, Debug, PartialEq, Eq, Structural)]
pub enum ErrorCode {
    /// The market is not in the `Active` state.
    MarketNotActive,
    /// Betting was attempted at or after the closing time.
    MarketClosed,
    /// Resolution was attempted before the closing time.
    MarketNotClosed,
    /// A claim was attempted on a market that is not resolved.
    MarketNotResolved,
    /// The bet was placed on the side that lost.
    NotWinningBet,
    /// The funding account holds another asset than the market accepts.
    WrongToken,
    /// The bet record was paid out before.
    AlreadyClaimed,
    /// The position holds no stake on the winning side.
    NoWinningsToClaim,
    /// A text field is longer than the space reserved for it.
    TextTooLong,
}

/// Why an operation was not carried out. Whatever the reason, nothing was
/// written.
#[derive(Clone, Copy, Debug, PartialEq, Eq, Structural)]
pub enum Failure {
    /// An ordinary, user-visible refusal.
    Rejected(ErrorCode),
    /// The caller is not the identity that the record names.
    Unauthorized,
    /// A market was resolved in favour of a side that nobody staked on: the
    /// payout would divide by zero. An accounting fault, not a zero payout.
    EmptyWinningPool,
    /// A counter or a payout does not fit in 64 bits.
    Overflow,
    /// The runtime handed out no clock.
    ClockUnavailable,
}

impl ErrorCode {
    /// The message shown to the user.
    pub fn message(&self) -> (text: &'static str)
        ensures
            text@ == self.message_text(),
    {
        match self {
            ErrorCode::MarketNotActive => "Market is not active",
            ErrorCode::MarketClosed => "Market is closed",
            ErrorCode::MarketNotClosed => "Market is not closed yet",
            ErrorCode::MarketNotResolved => "Market is not resolved",
            ErrorCode::NotWinningBet => "This bet is not on the winning side",
            ErrorCode::WrongToken => "Wrong token - this market only accepts the specified token",
            ErrorCode::AlreadyClaimed => "Bet has already been claimed",
            ErrorCode::NoWinningsToClaim => "No winnings to claim",
            ErrorCode::TextTooLong => "Text is too long",
        }
    }

    pub open spec fn message_text(self) -> Seq<char> {
        match self {
            ErrorCode::MarketNotActive => "Market is not active"@,
            ErrorCode::MarketClosed => "Market is closed"@,
            ErrorCode::MarketNotClosed => "Market is not closed yet"@,
            ErrorCode::MarketNotResolved => "Market is not resolved"@,
            ErrorCode::NotWinningBet => "This bet is not on the winning side"@,
            ErrorCode::WrongToken => "Wrong token - this market only accepts the specified token"@,
            ErrorCode::AlreadyClaimed => "Bet has already been claimed"@,
            ErrorCode::NoWinningsToClaim => "No winnings to claim"@,
            ErrorCode::TextTooLong => "Text is too long"@,
        }
    }
}

} // verus!
