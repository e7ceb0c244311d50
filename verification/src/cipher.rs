//! The sealing and opening of tokens, as the `fernet` crate performs them.
//!
//! Three functions of that crate are called here, each behind a contract that
//! is taken on trust. What the rest of the library says of keys and tokens is
//! proved from these contracts.
//!
//! The crate's `encrypt` and `decrypt` read the system clock themselves. The
//! two functions called here take the clock reading as an argument instead,
//! which makes the opening of a token a function of what it is given.

use vstd::prelude::*;

verus! {

/// How many seconds the timestamp of a token may lie ahead of the clock when
/// the token is opened.
pub const CLOCK_SKEW: u64 = 60;

/// The latest clock reading, in seconds since the epoch, at which a token can
/// be opened: the cipher adds [`CLOCK_SKEW`] to the reading.
pub const LATEST_CLOCK: u64 = u64::MAX - CLOCK_SKEW;

/// Whether `fernet::Fernet::new` makes a cipher from this key text.
pub uninterp spec fn key_accepted(key: Seq<char>) -> bool;

/// What `fernet::Fernet::decrypt_at_time` recovers from `token`, without an
/// expiry limit, on a cipher made from `key` when the clock reads `now`: the
/// plaintext, or `None` where it reports a decryption error.
pub uninterp spec fn opened(key: Seq<char>, token: Seq<char>, now: u64) -> Option<Seq<u8>>;

/// The error type of `fernet::Fernet::decrypt_at_time`, carried through unread.
#[verifier::external_type_specification]
#[verifier::external_body]
pub struct ExDecryptionError(fernet::DecryptionError);

/// Whether `token` opens to `plain` under `key` at every clock reading from
/// [`CLOCK_SKEW`] seconds before `sealed_at` onwards.
pub open spec fn opens_from(key: Seq<char>, token: Seq<char>, sealed_at: u64, plain: Seq<u8>) -> bool {
    forall|now: u64|
        sealed_at <= now + CLOCK_SKEW && now <= LATEST_CLOCK ==> #[trigger] opened(key, token, now)
            == Some(plain)
}

/// Calls `fernet::Fernet::new` and tells whether it returned a cipher. By its
/// source that depends on the key text alone, so the answer has a name.
#[verifier::external_body]
pub(crate) fn fernet_accepts(key: &str) -> (ok: bool)
    ensures
        ok == key_accepted(key@),
{
    fernet::Fernet::new(key).is_some()
}

/// Calls `fernet::Fernet::encrypt_at_time` on a cipher made from `key`.
///
/// The token differs from call to call, because the crate draws a fresh
/// initialisation vector for each, so it has no name. What is claimed of
/// every token is what the crate documents: handed to `decrypt_at_time` under
/// the same key it yields `data`. By the crate's source that holds at every
/// clock reading but those more than [`CLOCK_SKEW`] seconds behind the `now`
/// that is stamped into the token. The call panics only where the system's
/// source of random bytes fails.
#[verifier::external_body]
pub(crate) fn fernet_encrypt(key: &str, data: &[u8], now: u64) -> (token: String)
    requires
        key_accepted(key@),
    ensures
        opens_from(key@, token@, now, data@),
{
    fernet::Fernet::new(key).unwrap().encrypt_at_time(data, now)
}

/// Calls `fernet::Fernet::decrypt_at_time`, with no expiry limit, on a cipher
/// made from `key`. By the crate's source the result depends on the key, the
/// token and the clock reading alone, so it has a name. Readings past
/// [`LATEST_CLOCK`] are left out: the crate's addition would overflow on them.
#[verifier::external_body]
pub(crate) fn fernet_decrypt(key: &str, token: &str, now: u64) -> (r: Result<
    Vec<u8>,
    fernet::DecryptionError,
>)
    requires
        key_accepted(key@),
        now <= LATEST_CLOCK,
    ensures
        r is Ok <==> opened(key@, token@, now) is Some,
        r matches Ok(plain) ==> opened(key@, token@, now) == Some(plain@),
{
    fernet::Fernet::new(key).unwrap().decrypt_at_time(token, None, now)
}

} // verus!
