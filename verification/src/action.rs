//! The action a run performs on every file it is given.

use vstd::prelude::*;
use crate::report::Failure;

verus! {

/// What a run does to each of its files.
#[derive(Clone, Copy, Debug, PartialEq, Eq, Structural)]
pub enum Action {
    Encrypt,
    Decrypt,
}

impl Action {
    /// The line that announces a run of this action.
    pub open spec fn announcement(self) -> Seq<char> {
        match self {
            Action::Encrypt => "Encrypting files..."@,
            Action::Decrypt => "Decrypting files..."@,
        }
    }

    /// The line that announces a run of this action.
    pub fn intro(&self) -> (line: &'static str)
        ensures
            line@ == self.announcement(),
    {
        match self {
            Action::Encrypt => "Encrypting files...",
            Action::Decrypt => "Decrypting files...",
        }
    }
}

/// A capital letter of ASCII turned into its small letter; any other
/// character as it is.
pub open spec fn ascii_lower(c: char) -> char {
    if 'A' <= c && c <= 'Z' {
        ((c as u8 + 32) as u8) as char
    } else {
        c
    }
}

/// `raw` with its ASCII letters in lower case.
pub open spec fn lowered(raw: Seq<char>) -> Seq<char> {
    raw.map_values(|c: char| ascii_lower(c))
}

/// The action that a raw argument selects: in lower case it has to read `e`
/// for encryption or `d` for decryption.
pub open spec fn action_of(raw: Seq<char>) -> Option<Action> {
    if lowered(raw) == seq!['e'] {
        Some(Action::Encrypt)
    } else if lowered(raw) == seq!['d'] {
        Some(Action::Decrypt)
    } else {
        None
    }
}

/// The case of the argument does not matter: two arguments that read the
/// same in lower case select the same action, and an argument selects what
/// its lower-case form selects.
pub proof fn action_ignores_case(raw: Seq<char>, other: Seq<char>)
    requires
        lowered(raw) == lowered(other),
    ensures
        action_of(raw) == action_of(other),
        action_of(lowered(raw)) == action_of(raw),
{
    assert(lowered(lowered(raw)) =~= lowered(raw));
}

/// Reads the action argument.
pub fn classify_action(raw: &str) -> (r: Result<Action, Failure>)
    ensures
        r == match action_of(raw@) {
            Some(action) => Ok::<Action, Failure>(action),
            None => Err::<Action, Failure>(Failure::InvalidAction),
        },
{
    if raw.unicode_len() != 1 {
        assert(seq!['e'].len() == 1 && seq!['d'].len() == 1);
        return Err(Failure::InvalidAction);
    }
    let c = raw.get_char(0);
    assert(lowered(raw@) =~= seq![ascii_lower(c)]);
    assert(seq![ascii_lower(c)][0] == ascii_lower(c));
    if c == 'e' || c == 'E' {
        Ok(Action::Encrypt)
    } else if c == 'd' || c == 'D' {
        Ok(Action::Decrypt)
    } else {
        Err(Failure::InvalidAction)
    }
}

} // verus!
