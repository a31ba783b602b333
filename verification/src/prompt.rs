//! The prompt composers: from a goal and the memory to the pair of
//! instructions that is sent to the model.

use crate::memory::{render_memory, rendered, Memory};
use crate::templates::{
    FIX_CODE, FIX_END, FIX_ERROR, FIX_GOAL, FIX_SYSTEM, SCRIPT_END, SCRIPT_GOAL,
    SCRIPT_INSTRUCTIONS, SCRIPT_SYSTEM, STEP_GOAL, STEP_REQUIREMENTS, STEP_SYSTEM,
};
use vstd::prelude::*;
use vstd::string::*;

verus! {

/// A system instruction and a user instruction.
pub struct Prompt {
    pub system: String,
    pub user: String,
}

/// The user instruction that asks for step advice toward `goal`, with `prior`
/// as the prior context.
pub open spec fn step_user(goal: Seq<char>, prior: Seq<char>) -> Seq<char> {
    STEP_GOAL@ + goal + STEP_REQUIREMENTS@ + prior
}

/// The user instruction that asks for a script for `goal`, with `prior` as
/// the prior context.
pub open spec fn script_user(goal: Seq<char>, prior: Seq<char>) -> Seq<char> {
    SCRIPT_GOAL@ + goal + SCRIPT_INSTRUCTIONS@ + prior + SCRIPT_END@
}

/// The user instruction that asks for a correction of `code`, which was
/// written for `goal` and failed with `error`.
pub open spec fn fix_user(goal: Seq<char>, code: Seq<char>, error: Seq<char>) -> Seq<char> {
    FIX_GOAL@ + goal + FIX_CODE@ + code + FIX_ERROR@ + error + FIX_END@
}

/// The prompt that asks for a short numbered plan toward `goal`.
pub fn compose_step(goal: &str, memory: &Memory) -> (p: Prompt)
    ensures
        p.system@ == STEP_SYSTEM@,
        p.user@ == step_user(goal@, rendered(memory@)),
{
    let prior = render_memory(memory);
    let mut user = String::from_str(STEP_GOAL);
    user.append(goal);
    user.append(STEP_REQUIREMENTS);
    user.append(prior.as_str());
    Prompt { system: String::from_str(STEP_SYSTEM), user }
}

/// The prompt that asks for a script that builds `goal`.
pub fn compose_script(goal: &str, memory: &Memory) -> (p: Prompt)
    ensures
        p.system@ == SCRIPT_SYSTEM@,
        p.user@ == script_user(goal@, rendered(memory@)),
{
    let prior = render_memory(memory);
    let mut user = String::from_str(SCRIPT_GOAL);
    user.append(goal);
    user.append(SCRIPT_INSTRUCTIONS);
    user.append(prior.as_str());
    user.append(SCRIPT_END);
    Prompt { system: String::from_str(SCRIPT_SYSTEM), user }
}

/// The prompt that asks for a corrected version of `code`.
pub fn compose_fix(goal: &str, code: &str, error: &str) -> (p: Prompt)
    ensures
        p.system@ == FIX_SYSTEM@,
        p.user@ == fix_user(goal@, code@, error@),
{
    let mut user = String::from_str(FIX_GOAL);
    user.append(goal);
    user.append(FIX_CODE);
    user.append(code);
    user.append(FIX_ERROR);
    user.append(error);
    user.append(FIX_END);
    Prompt { system: String::from_str(FIX_SYSTEM), user }
}

} // verus!
