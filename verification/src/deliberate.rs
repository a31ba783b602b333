//! The deliberation protocol: a planning request whose answer stays private,
//! a pause, and the final request, which carries the planning notes.
//!
//! The caller sends the requests and sleeps; each step here takes what came
//! back and says what to do next. A step consumes the state before it, so the
//! final request can only be had after the pause was handed out.

use crate::client::Failure;
use crate::prompt::Prompt;
use vstd::prelude::*;
use vstd::string::*;

verus! {

/// The system instruction of the planning request.
pub const PLANNING_SYSTEM: &'static str =
    "You are an expert Blender engineer. Think privately and write short bullet notes about the best approach. Do NOT include code or backticks. Keep under 150 words.";

/// What stands between the system instruction and the planning notes in the
/// final request.
pub const NOTES_HEADING: &'static str =
    "\n\nInternal planning notes (use for quality, do not echo):\n";

/// The notes that a planning request leaves: its text, or nothing where it
/// failed.
pub open spec fn notes_of(outcome: Result<Seq<char>, Failure>) -> Seq<char> {
    match outcome {
        Ok(text) => text,
        Err(_) => Seq::empty(),
    }
}

/// The seconds to pause: those of the setting where there is one, else those
/// that the caller gave.
pub open spec fn pause_of(setting: Option<u64>, seconds: u64) -> u64 {
    match setting {
        Some(secs) => secs,
        None => seconds,
    }
}

/// The system instruction of the final request.
pub open spec fn final_system(system: Seq<char>, notes: Seq<char>) -> Seq<char> {
    system + NOTES_HEADING@ + notes
}

/// What an outcome is in contracts: its text by its characters.
pub open spec fn outcome_view(outcome: Result<String, Failure>) -> Result<Seq<char>, Failure> {
    match outcome {
        Ok(text) => Ok(text@),
        Err(failure) => Err(failure),
    }
}

/// A deliberation whose planning request is under way.
pub struct Planning {
    system: String,
    user: String,
    seconds: u64,
}

/// A deliberation that pauses.
pub struct Pausing {
    system: String,
    user: String,
    notes: String,
}

/// A deliberation whose final request is under way.
pub struct Answering {
    user: String,
}

impl Planning {
    /// The system instruction that the deliberation was started with.
    pub closed spec fn system(&self) -> Seq<char> {
        self.system@
    }

    /// The user instruction that the deliberation was started with.
    pub closed spec fn user(&self) -> Seq<char> {
        self.user@
    }

    /// The pause that the caller asked for.
    pub closed spec fn seconds(&self) -> u64 {
        self.seconds
    }

    /// Takes the planning request's outcome and hands out the pause. A
    /// failure is kept as empty notes. The pause is the same whatever the
    /// outcome was.
    pub fn planned(
        self,
        outcome: Result<String, Failure>,
        setting: Option<u64>,
    ) -> (r: (Pausing, u64))
        ensures
            r.0.system() == self.system(),
            r.0.user() == self.user(),
            r.0.notes() == notes_of(outcome_view(outcome)),
            r.1 == pause_of(setting, self.seconds()),
    {
        let notes = match outcome {
            Ok(text) => text,
            Err(_) => String::new(),
        };
        let secs = match setting {
            Some(secs) => secs,
            None => self.seconds,
        };
        (Pausing { system: self.system, user: self.user, notes }, secs)
    }
}

impl Pausing {
    /// The system instruction that the deliberation was started with.
    pub closed spec fn system(&self) -> Seq<char> {
        self.system@
    }

    /// The user instruction that the deliberation was started with.
    pub closed spec fn user(&self) -> Seq<char> {
        self.user@
    }

    /// The planning notes.
    pub closed spec fn notes(&self) -> Seq<char> {
        self.notes@
    }

    /// After the pause: the final request, with the notes behind the system
    /// instruction and the user instruction as it was given.
    pub fn rested(self) -> (r: (Answering, Prompt))
        ensures
            r.0.user() == self.user(),
            r.1.system@ == final_system(self.system(), self.notes()),
            r.1.user@ == self.user(),
    {
        let mut system = self.system;
        system.append(NOTES_HEADING);
        system.append(self.notes.as_str());
        let user = String::from_str(self.user.as_str());
        (Answering { user: self.user }, Prompt { system, user })
    }
}

impl Answering {
    /// The user instruction that the deliberation was started with.
    pub closed spec fn user(&self) -> Seq<char> {
        self.user@
    }

    /// Takes the final request's outcome, which is the deliberation's own.
    pub fn answered(self, outcome: Result<String, Failure>) -> (r: Result<String, Failure>)
        ensures
            r == outcome,
    {
        outcome
    }
}

/// Starts a deliberation on `system` and `user` with a pause of `seconds`,
/// and hands out the planning request: the planning directive as its system
/// instruction, and `user` itself as its user instruction.
pub fn ask_deliberate(system: &str, user: &str, seconds: u64) -> (r: (Planning, Prompt))
    ensures
        r.0.system() == system@,
        r.0.user() == user@,
        r.0.seconds() == seconds,
        r.1.system@ == PLANNING_SYSTEM@,
        r.1.user@ == user@,
{
    (
        Planning { system: String::from_str(system), user: String::from_str(user), seconds },
        Prompt { system: String::from_str(PLANNING_SYSTEM), user: String::from_str(user) },
    )
}

/// A planning request that failed leaves empty notes, so the final request
/// is made with the system instruction and the heading alone; its outcome is
/// then the deliberation's, as `answered` says.
pub proof fn lemma_planning_failure_isolated(system: Seq<char>, failure: Failure)
    ensures
        notes_of(Err(failure)) == Seq::<char>::empty(),
        final_system(system, notes_of(Err(failure))) == system + NOTES_HEADING@,
{
    assert(system + NOTES_HEADING@ + Seq::<char>::empty() =~= system + NOTES_HEADING@);
}

} // verus!
