//! Keys: how one is made from a key file, and what it seals and opens.

use vstd::prelude::*;
use crate::cipher::{
    fernet_accepts, fernet_decrypt, fernet_encrypt, key_accepted, opened, opens_from, CLOCK_SKEW,
    LATEST_CLOCK,
};
use crate::report::Failure;
use crate::text::{as_text, held, text_of};

verus! {

/// Whether `text` can serve as a key: it is not empty and the cipher accepts it.
pub open spec fn is_key(text: Seq<char>) -> bool {
    text.len() > 0 && key_accepted(text)
}

/// A key: text for which [`is_key`] holds, kept as it was given.
pub struct Key {
    text: String,
}

impl View for Key {
    type V = Seq<char>;

    closed spec fn view(&self) -> Seq<char> {
        self.text@
    }
}

impl Key {
    #[verifier::type_invariant]
    spec fn well_formed(&self) -> bool {
        is_key(self.text@)
    }

    /// Makes a key of `text`, unchanged, if it is one.
    pub fn new(text: String) -> (r: Option<Key>)
        ensures
            r is Some <==> is_key(text@),
            r matches Some(key) ==> key@ == text@,
    {
        if !text.as_str().is_empty() && fernet_accepts(text.as_str()) {
            Some(Key { text })
        } else {
            None
        }
    }

    /// The text of the key.
    pub fn as_str(&self) -> (s: &str)
        ensures
            s@ == self@,
            is_key(s@),
    {
        proof {
            use_type_invariant(self);
        }
        self.text.as_str()
    }

    /// Seals `plain` into a token stamped with the clock reading `now`. Two
    /// calls give two tokens; each opens to `plain` from then on.
    pub fn seal(&self, plain: &[u8], now: u64) -> (token: String)
        ensures
            opens_from(self@, token@, now, plain@),
    {
        proof {
            use_type_invariant(self);
        }
        fernet_encrypt(self.text.as_str(), plain, now)
    }

    /// Opens `token` at the clock reading `now`: gives what it seals, or
    /// `None` where it is no token, is damaged, was sealed under another key,
    /// or is stamped more than [`CLOCK_SKEW`] seconds ahead of `now`.
    pub fn unseal(&self, token: &str, now: u64) -> (r: Option<Vec<u8>>)
        requires
            now <= LATEST_CLOCK,
        ensures
            r is Some <==> opened(self@, token@, now) is Some,
            r matches Some(plain) ==> opened(self@, token@, now) == Some(plain@),
    {
        proof {
            use_type_invariant(self);
        }
        match fernet_decrypt(self.text.as_str(), token, now) {
            Ok(plain) => Some(plain),
            Err(_) => None,
        }
    }
}

/// Round trip: a token that seals `plain` opens to `plain` again under the
/// same key, at any clock reading that is not more than [`CLOCK_SKEW`]
/// seconds behind the one it was sealed at.
pub proof fn sealed_token_opens(
    key: Seq<char>,
    plain: Seq<u8>,
    sealed_at: u64,
    token: Seq<char>,
    now: u64,
)
    requires
        opens_from(key, token, sealed_at, plain),
        sealed_at <= now + CLOCK_SKEW,
        now <= LATEST_CLOCK,
    ensures
        opened(key, token, now) == Some(plain),
{
}

/// The key that a key file gives, taken verbatim: nothing is trimmed.
pub open spec fn key_of(file: Option<Seq<u8>>) -> Result<Seq<char>, Failure> {
    match file {
        None => Err(Failure::FileNotFound),
        Some(bytes) => match text_of(bytes) {
            None => Err(Failure::InvalidKeyEncoding),
            Some(text) => if is_key(text) {
                Ok(text)
            } else {
                Err(Failure::InvalidKey)
            },
        },
    }
}

/// Makes the key from what the key file was seen to hold.
pub fn load_key(file: Option<&[u8]>) -> (r: Result<Key, Failure>)
    ensures
        match r {
            Ok(key) => key_of(held(file)) == Ok::<Seq<char>, Failure>(key@),
            Err(failure) => key_of(held(file)) == Err::<Seq<char>, Failure>(failure),
        },
{
    let bytes = match file {
        Some(bytes) => bytes,
        None => { return Err(Failure::FileNotFound); },
    };
    let text = match as_text(bytes) {
        Some(text) => text,
        None => { return Err(Failure::InvalidKeyEncoding); },
    };
    match Key::new(text.to_owned()) {
        Some(key) => Ok(key),
        None => Err(Failure::InvalidKey),
    }
}

} // verus!
