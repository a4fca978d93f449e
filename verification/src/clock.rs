//! The time of the cluster, as the host reports it.

use anchor_lang::solana_program::clock::Clock;
use anchor_lang::solana_program::program_error::ProgramError;
use anchor_lang::solana_program::sysvar::Sysvar;
use vstd::prelude::*;

verus! {

/// `ProgramError`, the error of `Clock::get`: carried through as it is, never
/// looked into.
#[verifier::external_type_specification]
#[verifier::external_body]
pub struct ExProgramError(ProgramError);

/// Calls `Clock::get` and hands out the clock's `unix_timestamp`. Trusted, and
/// nothing is claimed of the outcome: the time is whatever the host reports,
/// and outside a running program the host reports an error.
#[verifier::external_body]
fn clock_unix_timestamp() -> (reading: Result<i64, ProgramError>) {
    match Clock::get() {
        Ok(clock) => Ok(clock.unix_timestamp),
        Err(error) => Err(error),
    }
}

/// The current Unix time, or `None` when the host has no clock to read.
pub fn unix_timestamp() -> (now: Option<i64>) {
    match clock_unix_timestamp() {
        Ok(seconds) => Some(seconds),
        Err(_) => None,
    }
}

} // verus!
