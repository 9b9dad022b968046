//! Fitness verification planning: turn the configured test command into
//! the process invocation to spawn, and reduce the outcome to survival.

use vstd::prelude::*;
use crate::text::{spec_tokens, tokenize};

verus! {

/// The process invocation the fitness check spawns: the command split on
/// whitespace, program first. An empty or all-whitespace command yields
/// nothing — a defined failure, with no process ever spawned.
pub fn fitness_command(test_cmd: &str) -> (r: Option<Vec<String>>)
    ensures
        r is Some <==> spec_tokens(test_cmd@).len() > 0,
        r is Some ==> r.unwrap().deep_view() == spec_tokens(test_cmd@),
{
    let tokens = tokenize(test_cmd);
    proof {
        assert(tokens.deep_view().len() == tokens@.len());
    }
    if tokens.len() == 0 {
        None
    } else {
        Some(tokens)
    }
}

/// Reduce a fitness outcome to survival: exactly a zero exit status
/// passes, while a command that never ran (empty, or impossible to spawn)
/// counts as a failure, not an error.
pub fn fitness_verdict(exit_success: Option<bool>) -> (r: bool)
    ensures
        r == (exit_success == Some(true)),
{
    match exit_success {
        Some(true) => true,
        _ => false,
    }
}

} // verus!
