//! What the core makes of the password hasher's answers. The hasher itself
//! is keyed with the secret and salts every digest; it runs outside this
//! library, which sees only what it answered.

use vstd::prelude::*;
use crate::error::CryptoError;

verus! {

/// What hashing amounts to, given the hasher's answer: the digest, or a
/// hash failure where the hasher gave none.
pub open spec fn spec_digest(answer: Option<String>) -> Result<String, CryptoError> {
    match answer {
        Some(digest) => Ok(digest),
        None => Err(CryptoError::HashFailure),
    }
}

/// Whether a password counts as verified, given the hasher's answer: only
/// where the hasher compared and found a match. A digest that it could not
/// read is a password that did not match.
pub open spec fn spec_verified(answer: Option<bool>) -> bool {
    answer == Some(true)
}

/// Turns the hasher's answer to a request for a digest into the result of
/// hashing.
pub fn digest(answer: Option<String>) -> (hashed: Result<String, CryptoError>)
    ensures
        hashed == spec_digest(answer),
{
    match answer {
        Some(digest) => Ok(digest),
        None => Err(CryptoError::HashFailure),
    }
}

/// Says whether the hasher found a match: `true` only where it compared and
/// the password matched, `false` for a mismatch and where it could not
/// compare.
pub fn verified(answer: Option<bool>) -> (matches: bool)
    ensures
        matches == spec_verified(answer),
{
    match answer {
        Some(matches) => matches,
        None => false,
    }
}

} // verus!
