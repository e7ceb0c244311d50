//! What a run reports: the outcome for each file, or the failure that ends it.

use vstd::prelude::*;

verus! {

/// Why a run ends before its last file. Each of these stops the whole run.
#[derive(Clone, Copy, Debug, PartialEq, Eq, Structural)]
pub enum Failure {
    /// A named file, the key file or a target, is not there as a regular file.
    FileNotFound,
    /// The action argument selects neither encryption nor decryption.
    InvalidAction,
    /// The bytes of the key file are not UTF-8 text.
    InvalidKeyEncoding,
    /// The text of the key file is not a key that the cipher accepts.
    InvalidKey,
    /// The bytes of a target file are not UTF-8 text.
    InvalidEncoding,
}

/// What became of one file. None of these stops the run.
#[derive(Debug, PartialEq, Eq)]
pub enum Outcome {
    /// The file is to be overwritten with these bytes: the token that seals
    /// what it held.
    Encrypted(Vec<u8>),
    /// The file already holds a token under the key, and stays as it is.
    AlreadyEncrypted,
    /// The file is to be overwritten with these bytes: what its token held.
    Decrypted(Vec<u8>),
    /// The file does not open under the key, and stays as it is. Whether it
    /// holds no token, a damaged one, or one sealed under another key is not
    /// told apart.
    NotDecrypted,
}

/// An [`Outcome`] as contracts speak of it.
pub enum OutcomeView {
    Encrypted(Seq<u8>),
    AlreadyEncrypted,
    Decrypted(Seq<u8>),
    NotDecrypted,
}

impl OutcomeView {
    /// The bytes that replace the file's contents, if any do.
    pub open spec fn rewrite(self) -> Option<Seq<u8>> {
        match self {
            OutcomeView::Encrypted(token) => Some(token),
            OutcomeView::Decrypted(plain) => Some(plain),
            OutcomeView::AlreadyEncrypted => None,
            OutcomeView::NotDecrypted => None,
        }
    }

    /// The words that report this outcome.
    pub open spec fn status(self) -> Seq<char> {
        match self {
            OutcomeView::Encrypted(_) => "Encrypted"@,
            OutcomeView::AlreadyEncrypted => "Already encrypted"@,
            OutcomeView::Decrypted(_) => "Decrypted"@,
            OutcomeView::NotDecrypted => "Either is already decrypted or key is invalid"@,
        }
    }
}

impl View for Outcome {
    type V = OutcomeView;

    open spec fn view(&self) -> OutcomeView {
        match self {
            Outcome::Encrypted(token) => OutcomeView::Encrypted(token@),
            Outcome::AlreadyEncrypted => OutcomeView::AlreadyEncrypted,
            Outcome::Decrypted(plain) => OutcomeView::Decrypted(plain@),
            Outcome::NotDecrypted => OutcomeView::NotDecrypted,
        }
    }
}

/// The result of handling one file as contracts speak of it.
pub open spec fn result_view(r: Result<Outcome, Failure>) -> Result<OutcomeView, Failure> {
    match r {
        Ok(outcome) => Ok(outcome@),
        Err(failure) => Err(failure),
    }
}

impl Outcome {
    /// The words that report this outcome, to follow the file's path on its
    /// status line.
    pub fn status(&self) -> (words: &'static str)
        ensures
            words@ == self@.status(),
    {
        match self {
            Outcome::Encrypted(_) => "Encrypted",
            Outcome::AlreadyEncrypted => "Already encrypted",
            Outcome::Decrypted(_) => "Decrypted",
            Outcome::NotDecrypted => "Either is already decrypted or key is invalid",
        }
    }

    /// The bytes to overwrite the file with, or `None` where it stays as it is.
    pub fn rewrite(&self) -> (r: Option<&Vec<u8>>)
        ensures
            r is Some <==> self@.rewrite() is Some,
            r matches Some(bytes) ==> self@.rewrite() == Some(bytes@),
    {
        match self {
            Outcome::Encrypted(token) => Some(token),
            Outcome::Decrypted(plain) => Some(plain),
            Outcome::AlreadyEncrypted => None,
            Outcome::NotDecrypted => None,
        }
    }
}

} // verus!
