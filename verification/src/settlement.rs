use crate::error::TaskError;
use crate::pubkey::Pubkey;
use vstd::prelude::*;

verus! {

/// One request to the token service: mint `amount` units of `mint` into the
/// account `to`, on the word of `authority`.
#[derive(Clone, Copy, Debug, PartialEq, Eq)]
pub struct MintRequest {
    pub mint: Pubkey,
    pub to: Pubkey,
    pub authority: Pubkey,
    pub amount: u64,
}

/// The two ways in which the token service refuses a mint request.
#[derive(Clone, Copy, Debug, PartialEq, Eq, Structural)]
pub enum MintError {
    /// The authority may not mint.
    Unauthorized,
    /// The destination is no account that can take the tokens.
    InvalidAccount,
}

/// What a claim returns once the token service has answered.
pub open spec fn settled(outcome: Result<(), MintError>) -> Result<(), TaskError> {
    match outcome {
        Ok(()) => Ok(()),
        Err(MintError::Unauthorized) => Err(TaskError::Unauthorized),
        Err(MintError::InvalidAccount) => Err(TaskError::InvalidAccount),
    }
}

/// Turns the token service's answer to a mint request into the result of the
/// claim: success stays success, and a refusal is passed on as it came.
pub fn settle(outcome: Result<(), MintError>) -> (res: Result<(), TaskError>)
    ensures
        res == settled(outcome),
{
    match outcome {
        Ok(()) => Ok(()),
        Err(MintError::Unauthorized) => Err(TaskError::Unauthorized),
        Err(MintError::InvalidAccount) => Err(TaskError::InvalidAccount),
    }
}

} // verus!
