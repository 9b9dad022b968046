//! The mutation agent's invocation: the exact program and argument list
//! that scopes the agent to the built instruction and the tracked files.

use vstd::prelude::*;

verus! {

/// A process invocation for the external mutation agent.
pub struct AgentCommand {
    pub program: String,
    pub args: Vec<String>,
}

/// The arguments every agent invocation starts with: the planning model,
/// the editing model, the single message, and the unattended flag.
pub open spec fn spec_agent_fixed_args(
    instruction: Seq<char>,
    architect_model: Seq<char>,
    editor_model: Seq<char>,
) -> Seq<Seq<char>> {
    seq![
        "--model"@,
        architect_model,
        "--editor-model"@,
        editor_model,
        "--message"@,
        instruction,
        "--yes"@,
    ]
}

/// Build the agent invocation: the fixed flags, then the tracked files
/// appended positionally so the agent's edit surface is exactly that list.
#[verifier::loop_isolation(false)]
pub fn mutation_command(
    instruction: &String,
    files: &Vec<String>,
    architect_model: &String,
    editor_model: &String,
) -> (r: AgentCommand)
    ensures
        r.program@ == "aider"@,
        r.args.deep_view() == spec_agent_fixed_args(instruction@, architect_model@, editor_model@)
            + files.deep_view(),
{
    let ghost fixed = spec_agent_fixed_args(instruction@, architect_model@, editor_model@);
    let mut args: Vec<String> = Vec::new();
    args.push(String::from_str("--model"));
    args.push(architect_model.clone());
    args.push(String::from_str("--editor-model"));
    args.push(editor_model.clone());
    args.push(String::from_str("--message"));
    args.push(instruction.clone());
    args.push(String::from_str("--yes"));
    proof {
        assert(args.deep_view() =~= fixed);
    }
    let n = files.len();
    let mut i: usize = 0;
    proof {
        assert(fixed + files.deep_view().take(0) =~= fixed);
    }
    while i < n
        invariant
            i <= n,
            args.deep_view() == fixed + files.deep_view().take(i as int),
        decreases n - i,
    {
        let ghost before = args.deep_view();
        args.push(files[i].clone());
        proof {
            assert(files.deep_view()[i as int] == files@[i as int]@);
            assert(args.deep_view() =~= before.push(files.deep_view()[i as int]));
            assert(before.push(files.deep_view()[i as int]) =~= fixed + files.deep_view().take(
                i as int + 1,
            ));
        }
        i = i + 1;
    }
    proof {
        assert(files.deep_view().take(n as int) =~= files.deep_view());
    }
    AgentCommand { program: String::from_str("aider"), args }
}

} // verus!
