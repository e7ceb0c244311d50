//! What becomes of one file's contents under a key.

use vstd::prelude::*;
use vstd::utf8::{encode_utf8_decode_utf8, encode_utf8_valid_utf8};
use crate::action::Action;
use crate::cipher::{opened, opens_from, CLOCK_SKEW, LATEST_CLOCK};
use crate::key::Key;
use crate::report::{result_view, Failure, Outcome, OutcomeView};
use crate::text::{as_text, text_of};

verus! {

/// What decrypting a file that holds `contents` comes to, under `key` at the
/// clock reading `now`.
pub open spec fn decrypt_result(key: Seq<char>, contents: Seq<u8>, now: u64) -> Result<
    OutcomeView,
    Failure,
> {
    match text_of(contents) {
        None => Err(Failure::InvalidEncoding),
        Some(token) => match opened(key, token, now) {
            Some(plain) => Ok(OutcomeView::Decrypted(plain)),
            None => Ok(OutcomeView::NotDecrypted),
        },
    }
}

/// Whether `result` is what encrypting a file that holds `contents` may come
/// to, under `key` at the clock reading `now`. Contents that already open
/// under the key are left alone. Otherwise the file gets a token; which one
/// is the cipher's choice, but it is text, and it opens to `contents` from
/// then on.
pub open spec fn encrypt_permits(
    key: Seq<char>,
    contents: Seq<u8>,
    now: u64,
    result: Result<OutcomeView, Failure>,
) -> bool {
    match text_of(contents) {
        None => result == Err::<OutcomeView, Failure>(Failure::InvalidEncoding),
        Some(text) => if opened(key, text, now) is Some {
            result == Ok::<OutcomeView, Failure>(OutcomeView::AlreadyEncrypted)
        } else {
            &&& result matches Ok(OutcomeView::Encrypted(written))
            &&& text_of(written) matches Some(token)
            &&& opens_from(key, token, now, contents)
        },
    }
}

/// Whether `result` is what handling a file that holds `contents` may come to.
pub open spec fn process_permits(
    action: Action,
    key: Seq<char>,
    contents: Seq<u8>,
    now: u64,
    result: Result<OutcomeView, Failure>,
) -> bool {
    match action {
        Action::Encrypt => encrypt_permits(key, contents, now, result),
        Action::Decrypt => result == decrypt_result(key, contents, now),
    }
}

/// Round trip: a file that was encrypted decrypts to what it held before,
/// under the same key, at any clock reading that is not more than
/// [`CLOCK_SKEW`] seconds behind the one it was encrypted at.
pub proof fn encrypted_file_decrypts(
    key: Seq<char>,
    contents: Seq<u8>,
    sealed_at: u64,
    written: Seq<u8>,
    now: u64,
)
    requires
        encrypt_permits(key, contents, sealed_at, Ok(OutcomeView::Encrypted(written))),
        sealed_at <= now + CLOCK_SKEW,
        now <= LATEST_CLOCK,
    ensures
        decrypt_result(key, written, now) == Ok::<OutcomeView, Failure>(OutcomeView::Decrypted(contents)),
{
}

/// Encryption guards against itself: a file whose contents open under the
/// key is left as it is, and reported as already encrypted.
pub proof fn encrypting_a_token_changes_nothing(
    key: Seq<char>,
    contents: Seq<u8>,
    now: u64,
    result: Result<OutcomeView, Failure>,
)
    requires
        text_of(contents) matches Some(token) && opened(key, token, now) is Some,
        encrypt_permits(key, contents, now, result),
    ensures
        result == Ok::<OutcomeView, Failure>(OutcomeView::AlreadyEncrypted),
        result->Ok_0.rewrite() is None,
        result->Ok_0.status() == "Already encrypted"@,
{
}

/// Encrypting twice is encrypting once: the second encryption of a file,
/// under the same key and not more than [`CLOCK_SKEW`] seconds behind the
/// first by the clock, leaves the token of the first in place.
pub proof fn encrypting_twice_changes_nothing(
    key: Seq<char>,
    contents: Seq<u8>,
    sealed_at: u64,
    written: Seq<u8>,
    now: u64,
    second: Result<OutcomeView, Failure>,
)
    requires
        encrypt_permits(key, contents, sealed_at, Ok(OutcomeView::Encrypted(written))),
        sealed_at <= now + CLOCK_SKEW,
        now <= LATEST_CLOCK,
        encrypt_permits(key, written, now, second),
    ensures
        second == Ok::<OutcomeView, Failure>(OutcomeView::AlreadyEncrypted),
        second->Ok_0.rewrite() is None,
{
}

/// Decryption that fails changes nothing: a file whose text does not open
/// under the key, be it the wrong key or no token at all, is left as it is,
/// and the two are reported alike.
pub proof fn failed_decryption_changes_nothing(key: Seq<char>, contents: Seq<u8>, now: u64)
    requires
        text_of(contents) matches Some(token) && opened(key, token, now) is None,
    ensures
        decrypt_result(key, contents, now) == Ok::<OutcomeView, Failure>(OutcomeView::NotDecrypted),
        decrypt_result(key, contents, now)->Ok_0.rewrite() is None,
        decrypt_result(key, contents, now)->Ok_0.status()
            == "Either is already decrypted or key is invalid"@,
{
}

/// Tells whether `content` is a token that opens under `key`. A token sealed
/// under another key and text that is no token both give `false`.
pub fn file_is_already_encrypted(content: &str, key: &Key, now: u64) -> (already: bool)
    requires
        now <= LATEST_CLOCK,
    ensures
        already == opened(key@, content@, now) is Some,
{
    key.unseal(content, now).is_some()
}

/// The bytes to write over a file that holds `contents`: a token that seals
/// them, as text.
pub fn encrypt_file(contents: &[u8], key: &Key, now: u64) -> (written: Vec<u8>)
    ensures
        text_of(written@) matches Some(token) && opens_from(key@, token, now, contents@),
{
    let token = key.seal(contents, now);
    let written = token.as_str().as_bytes_vec();
    proof {
        encode_utf8_valid_utf8(token@);
        encode_utf8_decode_utf8(token@);
    }
    written
}

/// Opens the token that a file holds as `contents`: the file is to get the
/// plaintext if the token opens under `key`, and stays as it is if not.
pub fn decrypt_file(contents: &str, key: &Key, now: u64) -> (outcome: Outcome)
    requires
        now <= LATEST_CLOCK,
    ensures
        outcome@ == match opened(key@, contents@, now) {
            Some(plain) => OutcomeView::Decrypted(plain),
            None => OutcomeView::NotDecrypted,
        },
{
    match key.unseal(contents, now) {
        Some(plain) => Outcome::Decrypted(plain),
        None => Outcome::NotDecrypted,
    }
}

/// Handles one file that holds `contents`: says what is to be written over
/// it, if anything, or why the run has to stop.
pub fn process_file(action: Action, contents: &[u8], key: &Key, now: u64) -> (result: Result<
    Outcome,
    Failure,
>)
    requires
        now <= LATEST_CLOCK,
    ensures
        process_permits(action, key@, contents@, now, result_view(result)),
{
    let text = match as_text(contents) {
        Some(text) => text,
        None => { return Err(Failure::InvalidEncoding); },
    };
    match action {
        Action::Encrypt => {
            if file_is_already_encrypted(text, key, now) {
                Ok(Outcome::AlreadyEncrypted)
            } else {
                Ok(Outcome::Encrypted(encrypt_file(contents, key, now)))
            }
        },
        Action::Decrypt => Ok(decrypt_file(text, key, now)),
    }
}

} // verus!
