//! The authorization guard: the single check that gates every privileged
//! operation on the configured owner. Redemption is deliberately not
//! gated — any caller redeems against their own balance only.

use crate::errors::TokenError;
use vstd::prelude::*;

verus! {

/// Accepts exactly the configured owner and rejects every other caller.
pub fn require_owner(caller: &String, owner: &String) -> (r: Result<(), TokenError>)
    ensures
        caller@ == owner@ ==> r == Ok::<(), TokenError>(()),
        caller@ != owner@ ==> r == Err::<(), TokenError>(TokenError::Unauthorized),
{
    if *caller == *owner {
        Ok(())
    } else {
        Err(TokenError::Unauthorized)
    }
}

} // verus!
