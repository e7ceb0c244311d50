//! A run over the files of one argument, one file at a time.
//!
//! The run itself touches no file. It names the path it wants read next, is
//! told what that file was seen to hold, and answers with what is to be
//! written over it or with the failure that ends the run.

use vstd::prelude::*;
use crate::action::Action;
use crate::cipher::LATEST_CLOCK;
use crate::key::Key;
use crate::file::{process_file, process_permits};
use crate::paths::{split_commas, split_paths};
use crate::report::{result_view, Failure, Outcome, OutcomeView};
use crate::text::held;

verus! {

/// A file to handle: where it is, and what is to be done to it.
#[derive(Clone, Copy, Debug, PartialEq, Eq)]
pub struct FileTarget<'a> {
    pub path: &'a str,
    pub action: Action,
}

/// A run as contracts speak of it.
pub struct RunState {
    /// What the run does to each file.
    pub action: Action,
    /// The text of the key it does so under.
    pub key: Seq<char>,
    /// The paths it was given, in order.
    pub paths: Seq<Seq<char>>,
    /// How many of them it has handled.
    pub handled: nat,
    /// Whether a failure has ended it.
    pub halted: bool,
}

impl RunState {
    /// A run has handled no more files than it was given.
    pub open spec fn well_formed(self) -> bool {
        self.handled <= self.paths.len()
    }

    /// The path whose file the run wants to see next: the first one not yet
    /// handled, unless a failure has ended the run.
    pub open spec fn pending(self) -> Option<Seq<char>> {
        if !self.halted && self.handled < self.paths.len() {
            Some(self.paths[self.handled as int])
        } else {
            None
        }
    }

    /// Whether `result` is what the run may answer when the pending file is
    /// seen to hold `file` and the clock reads `now`.
    pub open spec fn permits(self, file: Option<Seq<u8>>, now: u64, result: Result<
        OutcomeView,
        Failure,
    >) -> bool {
        match file {
            None => result == Err::<OutcomeView, Failure>(Failure::FileNotFound),
            Some(contents) => process_permits(self.action, self.key, contents, now, result),
        }
    }

    /// The run after it has answered `result`: one file further on, or ended.
    pub open spec fn after(self, result: Result<OutcomeView, Failure>) -> RunState {
        match result {
            Ok(_) => RunState { handled: self.handled + 1, ..self },
            Err(_) => RunState { halted: true, ..self },
        }
    }
}

/// A missing file ends the run: the answer is the failure, which carries
/// nothing to write, no file is counted as handled, and no path is pending
/// any more.
pub proof fn missing_file_ends_run(run: RunState, now: u64, result: Result<OutcomeView, Failure>)
    requires
        run.permits(None, now, result),
    ensures
        result == Err::<OutcomeView, Failure>(Failure::FileNotFound),
        run.after(result).pending() is None,
        run.after(result).handled == run.handled,
{
}

/// A run that a failure has ended stays ended, whatever it is told next.
pub proof fn ended_run_stays_ended(run: RunState, result: Result<OutcomeView, Failure>)
    requires
        run.halted,
    ensures
        run.after(result).halted,
        run.after(result).pending() is None,
{
}

/// A run goes through its paths in the order given: after an answer that is
/// no failure, the pending path is the one that follows.
pub proof fn run_keeps_order(run: RunState, result: Result<OutcomeView, Failure>)
    requires
        run.pending() is Some,
        result is Ok,
    ensures
        run.after(result).well_formed(),
        run.after(result).handled == run.handled + 1,
        run.after(result).pending() == if run.handled + 1 < run.paths.len() {
            Some(run.paths[run.handled as int + 1])
        } else {
            None
        },
{
}

/// A run over the files of one argument.
pub struct Batch {
    action: Action,
    key: Key,
    paths: Vec<String>,
    handled: usize,
    halted: bool,
}

impl View for Batch {
    type V = RunState;

    closed spec fn view(&self) -> RunState {
        RunState {
            action: self.action,
            key: self.key@,
            paths: self.paths.deep_view(),
            handled: self.handled as nat,
            halted: self.halted,
        }
    }
}

impl Batch {
    #[verifier::type_invariant]
    spec fn within_paths(&self) -> bool {
        self.handled <= self.paths.len()
    }

    /// Starts a run of `action` under `key` over the comma-separated paths
    /// of `files`.
    pub fn new(action: Action, key: Key, files: &str) -> (batch: Batch)
        ensures
            batch@ == (RunState {
                action,
                key: key@,
                paths: split_commas(files@),
                handled: 0,
                halted: false,
            }),
    {
        Batch { action, key, paths: split_paths(files), handled: 0, halted: false }
    }

    /// The file to be read next, or `None` when the run is over.
    pub fn next_target(&self) -> (target: Option<FileTarget<'_>>)
        ensures
            self@.well_formed(),
            target is Some <==> self@.pending() is Some,
            target matches Some(t) ==> self@.pending() == Some(t.path@) && t.action
                == self@.action,
    {
        proof {
            use_type_invariant(self);
        }
        if !self.halted && self.handled < self.paths.len() {
            Some(FileTarget { path: self.paths[self.handled].as_str(), action: self.action })
        } else {
            None
        }
    }

    /// How many files the run has handled.
    pub fn handled(&self) -> (count: usize)
        ensures
            count == self@.handled,
            self@.well_formed(),
    {
        proof {
            use_type_invariant(self);
        }
        self.handled
    }

    /// Whether a failure has ended the run.
    pub fn is_halted(&self) -> (halted: bool)
        ensures
            halted == self@.halted,
    {
        self.halted
    }

    /// Handles the pending file, seen to hold `file` at the clock reading
    /// `now`. A file that is not there, or does not hold text, ends the run.
    pub fn step(&mut self, file: Option<&[u8]>, now: u64) -> (result: Result<Outcome, Failure>)
        requires
            old(self)@.pending() is Some,
            now <= LATEST_CLOCK,
        ensures
            old(self)@.permits(held(file), now, result_view(result)),
            final(self)@ == old(self)@.after(result_view(result)),
            final(self)@.well_formed(),
    {
        proof {
            use_type_invariant(&*self);
        }
        let result = match file {
            Some(contents) => process_file(self.action, contents, &self.key, now),
            None => Err(Failure::FileNotFound),
        };
        if result.is_ok() {
            self.handled = self.handled + 1;
        } else {
            self.halted = true;
        }
        result
    }
}

} // verus!
