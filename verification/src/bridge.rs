//! The operations of the bridge: what is answered and what is remembered
//! once the model service has been asked.

use crate::client::Failure;
use crate::deliberate::{ask_deliberate, outcome_view, Planning, PLANNING_SYSTEM};
use crate::memory::{remember, rendered, window, Memory};
use crate::prompt::{compose_script, script_user, Prompt};
use crate::templates::SCRIPT_SYSTEM;
use crate::text::{blank, first_line, first_line_of, is_blank, trim_text, trimmed};
use vstd::prelude::*;
use vstd::string::*;

verus! {

/// A request that names a goal.
pub struct Request {
    pub goal: String,
}

/// The answer to a request for step advice.
pub struct StepReply {
    pub step: String,
}

/// The answer that carries a script.
pub struct MacroReply {
    pub code: String,
}

/// A request to correct a script that failed.
pub struct ErrorRequest {
    pub goal: String,
    pub code: String,
    pub error: String,
}

/// A note to remember.
pub struct Note {
    pub event: String,
}

/// The advice given where the model gave none.
pub const STEP_FALLBACK: &'static str = "No suggestion available (LLM offline).";

/// The script given where the model gave none.
pub const SCRIPT_FALLBACK: &'static str = "# No code returned - LLM offline";

/// The correction given where the model gave none.
pub const FIX_FALLBACK: &'static str = "# Could not fix error - LLM offline";

/// The seconds that a script's deliberation pauses where no setting says
/// otherwise.
pub const SCRIPT_PAUSE_SECS: u64 = 2;

/// What starts the entry that records a request for step advice.
pub const PLAN_NOTE: &'static str = "Plan requested for goal: '";

/// What starts the entry that records a generated script.
pub const SCRIPT_NOTE: &'static str = "Generated script for goal: '";

/// What ends an entry that quotes a goal.
pub const NOTE_END: &'static str = "'";

/// What starts the entry that records a correction.
pub const FIX_NOTE: &'static str = "Fixed error: ";

/// Whether an outcome holds text that can be used: it is text, and not blank.
pub open spec fn usable(outcome: Result<Seq<char>, Failure>) -> bool {
    match outcome {
        Ok(text) => !blank(text),
        Err(_) => false,
    }
}

/// What a memory that held `held` holds once a request has ended with
/// `outcome`: `note` is remembered after a generation that can be used, and
/// nothing is after a failure or a blank text.
pub open spec fn recorded(
    held: Seq<Seq<char>>,
    outcome: Result<Seq<char>, Failure>,
    note: Seq<char>,
) -> Seq<Seq<char>> {
    if usable(outcome) {
        window(held.push(note))
    } else {
        held
    }
}

/// The advice answered after `outcome`: the model's text without the white
/// space around it, or the fallback.
pub open spec fn step_text(outcome: Result<Seq<char>, Failure>) -> Seq<char> {
    match outcome {
        Ok(text) => if blank(text) {
            STEP_FALLBACK@
        } else {
            trimmed(text)
        },
        Err(_) => STEP_FALLBACK@,
    }
}

/// The script answered after `outcome`: the model's text as it came, or the
/// fallback.
pub open spec fn script_text(outcome: Result<Seq<char>, Failure>) -> Seq<char> {
    match outcome {
        Ok(text) => if blank(text) {
            SCRIPT_FALLBACK@
        } else {
            text
        },
        Err(_) => SCRIPT_FALLBACK@,
    }
}

/// The correction answered after `outcome`: the model's text as it came, or
/// the fallback.
pub open spec fn fix_text(outcome: Result<Seq<char>, Failure>) -> Seq<char> {
    match outcome {
        Ok(text) => if blank(text) {
            FIX_FALLBACK@
        } else {
            text
        },
        Err(_) => FIX_FALLBACK@,
    }
}

/// The entry that records a request for step advice toward `goal`.
pub open spec fn plan_note(goal: Seq<char>) -> Seq<char> {
    PLAN_NOTE@ + goal + NOTE_END@
}

/// The entry that records a script generated for `goal`.
pub open spec fn script_note(goal: Seq<char>) -> Seq<char> {
    SCRIPT_NOTE@ + goal + NOTE_END@
}

/// The entry that records a correction after `error`: it quotes the first
/// line of the error message.
pub open spec fn fix_note(error: Seq<char>) -> Seq<char> {
    FIX_NOTE@ + first_line(error)
}

/// The model's text where it can be used, else `fallback`, and whether it
/// could be used.
fn text_or(outcome: Result<String, Failure>, fallback: &str) -> (r: (String, bool))
    ensures
        r.1 == usable(outcome_view(outcome)),
        r.0@ == if r.1 {
            outcome_view(outcome).unwrap()
        } else {
            fallback@
        },
{
    match outcome {
        Ok(given) => if is_blank(given.as_str()) {
            (String::from_str(fallback), false)
        } else {
            (given, true)
        },
        Err(_) => (String::from_str(fallback), false),
    }
}

/// Finishes a request for step advice: answers with the model's text,
/// trimmed, and remembers that a plan was requested; where `outcome` is a
/// failure or blank, answers with the fallback and remembers nothing.
pub fn next_step(
    memory: &mut Memory,
    request: &Request,
    outcome: Result<String, Failure>,
) -> (reply: StepReply)
    ensures
        reply.step@ == step_text(outcome_view(outcome)),
        final(memory)@ == recorded(
            old(memory)@,
            outcome_view(outcome),
            plan_note(request.goal@),
        ),
{
    let (text, used) = text_or(outcome, STEP_FALLBACK);
    if used {
        let mut note = String::from_str(PLAN_NOTE);
        note.append(request.goal.as_str());
        note.append(NOTE_END);
        remember(memory, note);
        StepReply { step: trim_text(text.as_str()) }
    } else {
        StepReply { step: text }
    }
}

/// Starts a request for a script: a deliberation on the script prompt for
/// the request's goal, with the pause that scripts get.
pub fn prepare_macro(memory: &Memory, request: &Request) -> (r: (Planning, Prompt))
    ensures
        r.0.system() == SCRIPT_SYSTEM@,
        r.0.user() == script_user(request.goal@, rendered(memory@)),
        r.0.seconds() == SCRIPT_PAUSE_SECS,
        r.1.system@ == PLANNING_SYSTEM@,
        r.1.user@ == script_user(request.goal@, rendered(memory@)),
{
    let prompt = compose_script(request.goal.as_str(), memory);
    ask_deliberate(prompt.system.as_str(), prompt.user.as_str(), SCRIPT_PAUSE_SECS)
}

/// Finishes a request for a script: answers with the model's text as it
/// came, and remembers that a script was generated; where `outcome` is a
/// failure or blank, answers with the fallback and remembers nothing.
pub fn run_macro(
    memory: &mut Memory,
    request: &Request,
    outcome: Result<String, Failure>,
) -> (reply: MacroReply)
    ensures
        reply.code@ == script_text(outcome_view(outcome)),
        final(memory)@ == recorded(
            old(memory)@,
            outcome_view(outcome),
            script_note(request.goal@),
        ),
{
    let (code, used) = text_or(outcome, SCRIPT_FALLBACK);
    if used {
        let mut note = String::from_str(SCRIPT_NOTE);
        note.append(request.goal.as_str());
        note.append(NOTE_END);
        remember(memory, note);
    }
    MacroReply { code }
}

/// Remembers the note's event, unless it is blank. Always acknowledges.
pub fn remember_api(memory: &mut Memory, note: Note) -> (ok: bool)
    ensures
        ok,
        final(memory)@ == if blank(note.event@) {
            old(memory)@
        } else {
            window(old(memory)@.push(note.event@))
        },
{
    if !is_blank(note.event.as_str()) {
        remember(memory, note.event);
    }
    true
}

/// Finishes a request for a correction: answers with the model's text as it
/// came, and remembers the first line of the error; where `outcome` is a
/// failure or blank, answers with the fallback and remembers nothing.
pub fn fix_error(
    memory: &mut Memory,
    request: &ErrorRequest,
    outcome: Result<String, Failure>,
) -> (reply: MacroReply)
    ensures
        reply.code@ == fix_text(outcome_view(outcome)),
        final(memory)@ == recorded(
            old(memory)@,
            outcome_view(outcome),
            fix_note(request.error@),
        ),
{
    let (code, used) = text_or(outcome, FIX_FALLBACK);
    if used {
        let mut note = String::from_str(FIX_NOTE);
        note.append(first_line_of(request.error.as_str()).as_str());
        remember(memory, note);
    }
    MacroReply { code }
}

/// Whatever the failure of the model service, each operation answers with
/// its fallback and leaves the memory as it was.
pub proof fn lemma_fallback_on_failure(failure: Failure, held: Seq<Seq<char>>, note: Seq<char>)
    ensures
        step_text(Err(failure)) == STEP_FALLBACK@,
        script_text(Err(failure)) == SCRIPT_FALLBACK@,
        fix_text(Err(failure)) == FIX_FALLBACK@,
        recorded(held, Err(failure), note) == held,
{
}

/// Text that is blank counts as a failure: each operation answers with its
/// fallback and leaves the memory as it was.
pub proof fn lemma_fallback_on_blank(text: Seq<char>, held: Seq<Seq<char>>, note: Seq<char>)
    requires
        blank(text),
    ensures
        step_text(Ok(text)) == STEP_FALLBACK@,
        script_text(Ok(text)) == SCRIPT_FALLBACK@,
        fix_text(Ok(text)) == FIX_FALLBACK@,
        recorded(held, Ok(text), note) == held,
{
}

} // verus!
