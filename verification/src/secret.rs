//! The secret key that keys the password digests and signs the tokens.

use vstd::prelude::*;
use crate::error::ConfigError;

verus! {

/// A secret key: a string that is never empty.
pub struct SecretKey {
    value: String,
}

impl View for SecretKey {
    type V = Seq<char>;

    closed spec fn view(&self) -> Seq<char> {
        self.value@
    }
}

impl SecretKey {
    /// Every key holds at least one character.
    #[verifier::type_invariant]
    closed spec fn well_formed(&self) -> bool {
        self.value@.len() > 0
    }

    /// Whether a configured value holds a key: it is set and not empty.
    pub open spec fn holds_key(configured: Option<String>) -> bool {
        configured is Some && configured->Some_0@.len() > 0
    }

    /// Takes the value that the environment holds for the secret (`None`
    /// where the variable is not set) and makes a key of it. A value that is
    /// not set, or is empty, is a missing secret.
    pub fn resolve(configured: Option<String>) -> (key: Result<SecretKey, ConfigError>)
        ensures
            Self::holds_key(configured) ==> key is Ok && key->Ok_0@ == configured->Some_0@,
            !Self::holds_key(configured) ==> key == Err::<SecretKey, ConfigError>(
                ConfigError::MissingSecret,
            ),
    {
        match configured {
            Some(value) => {
                if value.as_str().is_empty() {
                    Err(ConfigError::MissingSecret)
                } else {
                    Ok(SecretKey { value })
                }
            },
            None => Err(ConfigError::MissingSecret),
        }
    }

    /// The key's text.
    pub fn as_str(&self) -> (text: &str)
        ensures
            text@ == self@,
            text@.len() > 0,
    {
        proof {
            use_type_invariant(self);
        }
        self.value.as_str()
    }
}

} // verus!
