//! The runtime's clock.

use vstd::prelude::*;
use anchor_lang::prelude::Clock;
use anchor_lang::solana_program::sysvar::Sysvar;

verus! {

/// Reads the Unix timestamp of the runtime's clock with `Clock::get`, which
/// is `Sysvar::get` of solana_program for `Clock`. `None` where that call
/// fails: the runtime hands out no clock, as a host other than the chain
/// does unless it installs one. Nothing is claimed of the time that comes
/// back: it differs from call to call, so callers are verified for every
/// value of it.
#[verifier::external_body]
pub(crate) fn unix_timestamp() -> (now: Option<i64>) {
    match Clock::get() {
        Ok(clock) => Some(clock.unix_timestamp),
        Err(_) => None,
    }
}

} // verus!
