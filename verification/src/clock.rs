use anchor_lang::prelude::{Clock, ProgramError, SolanaSysvar};
use vstd::prelude::*;

verus! {

/// The error with which the runtime answers a failed request. Nothing in it
/// is read here.
#[verifier::external_type_specification]
#[verifier::external_body]
pub struct ExProgramError(anchor_lang::prelude::ProgramError);

/// Asks the runtime for the ledger's clock with `Clock::get` and hands back
/// its `unix_timestamp`, or the runtime's error where the clock cannot be
/// read. The answer depends on when and where the call is made, so nothing is
/// claimed of it.
#[verifier::external_body]
pub(crate) fn unix_timestamp() -> (now: Result<i64, ProgramError>) {
    match Clock::get() {
        Ok(clock) => Ok(clock.unix_timestamp),
        Err(e) => Err(e),
    }
}

} // verus!
