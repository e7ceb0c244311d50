use file_cipher::action::Action;
use file_cipher::cipher::CLOCK_SKEW;
use file_cipher::key::Key;
use file_cipher::file::{decrypt_file, encrypt_file, file_is_already_encrypted, process_file};
use file_cipher::report::{Failure, Outcome};

const SECRET: &str = "cw_0x689RpI-jtRR7oE8h_eQsKImvJapLeSbXpwF4e4=";
const OTHER_SECRET: &str = "AAAAAAAAAAAAAAAAAAAAAAAAAAAAAAAAAAAAAAAAAAA=";
const HELLO_TOKEN: &str = "gAAAAAAdwJ6wAAECAwQFBgcICQoLDA0ODy021cpGVWKZ_eEwCGM4BLLF_5CV9dOPmrhuVUPgJobwOz7JcbmrR64jVmpU4IwqDA==";
const HELLO_SEALED_AT: u64 = 499162800;
const NOW: u64 = 1_700_000_000;

fn key(text: &str) -> Key {
    Key::new(text.to_string()).unwrap()
}

fn encrypted(outcome: Result<Outcome, Failure>) -> Vec<u8> {
    match outcome {
        Ok(Outcome::Encrypted(written)) => written,
        other => panic!("not encrypted: {:?}", other),
    }
}

#[test]
fn token_under_the_key_is_already_encrypted() {
    assert!(file_is_already_encrypted(HELLO_TOKEN, &key(SECRET), NOW));
}

#[test]
fn plain_text_is_not_already_encrypted() {
    assert!(!file_is_already_encrypted("hello", &key(SECRET), NOW));
    assert!(!file_is_already_encrypted("", &key(SECRET), NOW));
}

#[test]
fn token_under_another_key_is_not_already_encrypted() {
    assert!(!file_is_already_encrypted(HELLO_TOKEN, &key(OTHER_SECRET), NOW));
}

#[test]
fn token_stamped_ahead_of_the_clock_is_not_already_encrypted() {
    let k = key(SECRET);
    assert!(file_is_already_encrypted(HELLO_TOKEN, &k, HELLO_SEALED_AT - CLOCK_SKEW));
    assert!(!file_is_already_encrypted(HELLO_TOKEN, &k, HELLO_SEALED_AT - CLOCK_SKEW - 1));
}

#[test]
fn encrypt_file_writes_a_token_of_the_contents() {
    let k = key(SECRET);
    let written = encrypt_file(b"hello", &k, NOW);
    assert_ne!(written, b"hello".to_vec());
    let token = String::from_utf8(written).unwrap();
    assert_eq!(k.unseal(&token, NOW), Some(b"hello".to_vec()));
}

#[test]
fn encrypt_file_takes_bytes_that_are_no_text() {
    let k = key(SECRET);
    let token = String::from_utf8(encrypt_file(&[0xff, 0x00, 0xfe], &k, NOW)).unwrap();
    assert_eq!(k.unseal(&token, NOW), Some(vec![0xff, 0x00, 0xfe]));
}

#[test]
fn decrypt_file_gives_the_plaintext() {
    assert_eq!(
        decrypt_file(HELLO_TOKEN, &key(SECRET), NOW),
        Outcome::Decrypted(b"hello".to_vec())
    );
}

#[test]
fn decrypt_file_leaves_plain_text_alone() {
    assert_eq!(decrypt_file("hello", &key(SECRET), NOW), Outcome::NotDecrypted);
}

#[test]
fn decrypt_file_under_another_key_leaves_the_file_alone() {
    let outcome = decrypt_file(HELLO_TOKEN, &key(OTHER_SECRET), NOW);
    assert_eq!(outcome, Outcome::NotDecrypted);
    assert_eq!(outcome.rewrite(), None);
    assert_eq!(outcome.status(), "Either is already decrypted or key is invalid");
}

#[test]
fn encrypting_then_decrypting_restores_the_contents() {
    let k = key(SECRET);
    for contents in [&b""[..], &b"hello"[..], "größe 🙂\n".as_bytes(), &[b'a'; 4096][..]] {
        let written = encrypted(process_file(Action::Encrypt, contents, &k, NOW));
        assert_eq!(
            process_file(Action::Decrypt, &written, &k, NOW + 5),
            Ok(Outcome::Decrypted(contents.to_vec()))
        );
    }
}

#[test]
fn encrypting_twice_leaves_the_first_token() {
    let k = key(SECRET);
    let written = encrypted(process_file(Action::Encrypt, b"hello", &k, NOW));
    let again = process_file(Action::Encrypt, &written, &k, NOW + 1);
    assert_eq!(again, Ok(Outcome::AlreadyEncrypted));
    assert_eq!(again.unwrap().rewrite(), None);
}

#[test]
fn encrypting_a_known_token_is_reported_as_already_encrypted() {
    let outcome = process_file(Action::Encrypt, HELLO_TOKEN.as_bytes(), &key(SECRET), NOW).unwrap();
    assert_eq!(outcome, Outcome::AlreadyEncrypted);
    assert_eq!(outcome.status(), "Already encrypted");
}

#[test]
fn encrypting_a_token_of_another_key_seals_it_again() {
    let k = key(SECRET);
    let inner = encrypted(process_file(Action::Encrypt, b"hello", &key(OTHER_SECRET), NOW));
    let outer = encrypted(process_file(Action::Encrypt, &inner, &k, NOW));
    assert_ne!(outer, inner);
    assert_eq!(process_file(Action::Decrypt, &outer, &k, NOW), Ok(Outcome::Decrypted(inner)));
}

#[test]
fn decrypting_with_the_wrong_key_is_a_no_op() {
    let written = encrypted(process_file(Action::Encrypt, b"hello", &key(SECRET), NOW));
    let outcome = process_file(Action::Decrypt, &written, &key(OTHER_SECRET), NOW).unwrap();
    assert_eq!(outcome, Outcome::NotDecrypted);
    assert_eq!(outcome.rewrite(), None);
}

#[test]
fn decrypting_plain_text_is_a_no_op() {
    assert_eq!(
        process_file(Action::Decrypt, b"hello", &key(SECRET), NOW),
        Ok(Outcome::NotDecrypted)
    );
    assert_eq!(process_file(Action::Decrypt, b"", &key(SECRET), NOW), Ok(Outcome::NotDecrypted));
}

#[test]
fn decrypting_a_known_token_gives_hello() {
    let outcome = process_file(Action::Decrypt, HELLO_TOKEN.as_bytes(), &key(SECRET), NOW).unwrap();
    assert_eq!(outcome, Outcome::Decrypted(b"hello".to_vec()));
    assert_eq!(outcome.rewrite(), Some(&b"hello".to_vec()));
    assert_eq!(outcome.status(), "Decrypted");
}

#[test]
fn contents_that_are_no_text_stop_encryption() {
    assert_eq!(
        process_file(Action::Encrypt, &[0x68, 0xff, 0x69], &key(SECRET), NOW),
        Err(Failure::InvalidEncoding)
    );
}

#[test]
fn contents_that_are_no_text_stop_decryption() {
    assert_eq!(
        process_file(Action::Decrypt, &[0xc3, 0x28], &key(SECRET), NOW),
        Err(Failure::InvalidEncoding)
    );
}

#[test]
fn encrypted_outcome_carries_the_token_to_write() {
    let outcome = process_file(Action::Encrypt, b"hello", &key(SECRET), NOW).unwrap();
    assert_eq!(outcome.status(), "Encrypted");
    let written = outcome.rewrite().unwrap().clone();
    assert_eq!(outcome, Outcome::Encrypted(written.clone()));
    assert_eq!(written.len(), 100);
    assert!(written.starts_with(b"gAAAAA"));
}

#[test]
fn outcomes_without_a_payload_rewrite_nothing() {
    assert_eq!(Outcome::AlreadyEncrypted.rewrite(), None);
    assert_eq!(Outcome::NotDecrypted.rewrite(), None);
    assert_eq!(Outcome::Encrypted(vec![1, 2]).rewrite(), Some(&vec![1, 2]));
    assert_eq!(Outcome::Decrypted(vec![]).rewrite(), Some(&vec![]));
}
