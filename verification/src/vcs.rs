//! Checkpoint management: the command sequence that establishes a clean
//! baseline snapshot, and the rollback commands that restore it. The
//! version-control tool itself runs outside; this module decides which
//! command comes next from what was observed.

use vstd::prelude::*;

verus! {

/// The steps of establishing a clean baseline, in order. `CheckRepo` is a
/// probe for version-control metadata; every other non-`Done` phase is one
/// command of the version-control tool.
#[derive(Clone, Copy, Debug, PartialEq, Eq, Structural)]
pub enum BaselinePhase {
    /// Probe whether version-control metadata exists in the target.
    CheckRepo,
    /// Initialize an isolated repository in place.
    InitRepo,
    /// Stage all current contents.
    StageAll,
    /// Ask whether the staged state differs from the last recorded state.
    CheckStaged,
    /// Record the staged state as the synthetic genesis checkpoint.
    CommitGenesis,
    /// Read the head revision identifier, the baseline of the run.
    QueryHead,
    /// The baseline is established.
    Done,
}

/// The successor of `phase` once its step ran. `observed` carries the
/// step's outcome where one matters: at `CheckRepo` it says metadata
/// exists, at `CheckStaged` it says the staged state differs; everywhere
/// else it is ignored.
pub open spec fn spec_baseline_next(phase: BaselinePhase, observed: bool) -> BaselinePhase {
    match phase {
        BaselinePhase::CheckRepo => if observed {
            BaselinePhase::StageAll
        } else {
            BaselinePhase::InitRepo
        },
        BaselinePhase::InitRepo => BaselinePhase::StageAll,
        BaselinePhase::StageAll => BaselinePhase::CheckStaged,
        BaselinePhase::CheckStaged => if observed {
            BaselinePhase::CommitGenesis
        } else {
            BaselinePhase::QueryHead
        },
        BaselinePhase::CommitGenesis => BaselinePhase::QueryHead,
        BaselinePhase::QueryHead => BaselinePhase::Done,
        BaselinePhase::Done => BaselinePhase::Done,
    }
}

/// Advance the baseline machine by one observed step.
pub fn baseline_next(phase: BaselinePhase, observed: bool) -> (r: BaselinePhase)
    ensures
        r == spec_baseline_next(phase, observed),
{
    match phase {
        BaselinePhase::CheckRepo => if observed {
            BaselinePhase::StageAll
        } else {
            BaselinePhase::InitRepo
        },
        BaselinePhase::InitRepo => BaselinePhase::StageAll,
        BaselinePhase::StageAll => BaselinePhase::CheckStaged,
        BaselinePhase::CheckStaged => if observed {
            BaselinePhase::CommitGenesis
        } else {
            BaselinePhase::QueryHead
        },
        BaselinePhase::CommitGenesis => BaselinePhase::QueryHead,
        BaselinePhase::QueryHead => BaselinePhase::Done,
        BaselinePhase::Done => BaselinePhase::Done,
    }
}

/// The version-control arguments a phase runs, or nothing for the probe
/// and the terminal phase.
pub fn baseline_command(phase: BaselinePhase) -> (r: Option<Vec<String>>)
    ensures
        match phase {
            BaselinePhase::CheckRepo => r is None,
            BaselinePhase::InitRepo => r is Some && r.unwrap().deep_view() == seq!["init"@],
            BaselinePhase::StageAll => r is Some && r.unwrap().deep_view() == seq!["add"@, "."@],
            BaselinePhase::CheckStaged => r is Some && r.unwrap().deep_view() == seq![
                "diff"@,
                "--cached"@,
                "--quiet"@,
            ],
            BaselinePhase::CommitGenesis => r is Some && r.unwrap().deep_view() == seq![
                "commit"@,
                "-m"@,
                "Genesis"@,
            ],
            BaselinePhase::QueryHead => r is Some && r.unwrap().deep_view() == seq![
                "rev-parse"@,
                "HEAD"@,
            ],
            BaselinePhase::Done => r is None,
        },
{
    match phase {
        BaselinePhase::CheckRepo => None,
        BaselinePhase::InitRepo => {
            let mut v: Vec<String> = Vec::new();
            v.push(String::from_str("init"));
            proof {
                assert(v.deep_view() =~= seq!["init"@]);
            }
            Some(v)
        },
        BaselinePhase::StageAll => {
            let mut v: Vec<String> = Vec::new();
            v.push(String::from_str("add"));
            v.push(String::from_str("."));
            proof {
                assert(v.deep_view() =~= seq!["add"@, "."@]);
            }
            Some(v)
        },
        BaselinePhase::CheckStaged => {
            let mut v: Vec<String> = Vec::new();
            v.push(String::from_str("diff"));
            v.push(String::from_str("--cached"));
            v.push(String::from_str("--quiet"));
            proof {
                assert(v.deep_view() =~= seq!["diff"@, "--cached"@, "--quiet"@]);
            }
            Some(v)
        },
        BaselinePhase::CommitGenesis => {
            let mut v: Vec<String> = Vec::new();
            v.push(String::from_str("commit"));
            v.push(String::from_str("-m"));
            v.push(String::from_str("Genesis"));
            proof {
                assert(v.deep_view() =~= seq!["commit"@, "-m"@, "Genesis"@]);
            }
            Some(v)
        },
        BaselinePhase::QueryHead => {
            let mut v: Vec<String> = Vec::new();
            v.push(String::from_str("rev-parse"));
            v.push(String::from_str("HEAD"));
            proof {
                assert(v.deep_view() =~= seq!["rev-parse"@, "HEAD"@]);
            }
            Some(v)
        },
        BaselinePhase::Done => None,
    }
}

/// The phases a baseline capture visits, given what its two probes will
/// observe: whether repository metadata is present, and whether the staged
/// state differs from the last recorded one.
pub open spec fn spec_baseline_phases(repo_present: bool, staged_differs: bool) -> Seq<
    BaselinePhase,
> {
    seq![BaselinePhase::CheckRepo] + (if repo_present {
        Seq::empty()
    } else {
        seq![BaselinePhase::InitRepo]
    }) + seq![BaselinePhase::StageAll, BaselinePhase::CheckStaged] + (if staged_differs {
        seq![BaselinePhase::CommitGenesis]
    } else {
        Seq::empty()
    }) + seq![BaselinePhase::QueryHead, BaselinePhase::Done]
}

/// Each phase in a capture's trace is followed by its [`spec_baseline_next`]
/// successor under the fixed observations, so the trace is exactly what
/// driving the machine visits.
pub proof fn lemma_baseline_phases_follow_machine(repo_present: bool, staged_differs: bool)
    ensures
        spec_baseline_phases(repo_present, staged_differs).first() == BaselinePhase::CheckRepo,
        spec_baseline_phases(repo_present, staged_differs).last() == BaselinePhase::Done,
        forall|j: int|
            0 <= j < spec_baseline_phases(repo_present, staged_differs).len() - 1
                ==> #[trigger] spec_baseline_phases(repo_present, staged_differs)[j + 1]
                == spec_baseline_next(
                spec_baseline_phases(repo_present, staged_differs)[j],
                match spec_baseline_phases(repo_present, staged_differs)[j] {
                    BaselinePhase::CheckRepo => repo_present,
                    BaselinePhase::CheckStaged => staged_differs,
                    _ => false,
                },
            ),
{
    let t = spec_baseline_phases(repo_present, staged_differs);
    assert forall|j: int| 0 <= j < t.len() - 1 implies #[trigger] t[j + 1] == spec_baseline_next(
        t[j],
        match t[j] {
            BaselinePhase::CheckRepo => repo_present,
            BaselinePhase::CheckStaged => staged_differs,
            _ => false,
        },
    ) by {
        assert(t[j] == t[j]);
    }
}

/// Baseline capture is idempotent: on a target whose repository already
/// exists and whose staged contents do not differ from the last recorded
/// state, the capture runs no commit at all, so the head revision it
/// returns is the same as before and no duplicate checkpoint appears.
pub proof fn lemma_baseline_idempotent()
    ensures
        spec_baseline_phases(true, false) =~= seq![
            BaselinePhase::CheckRepo,
            BaselinePhase::StageAll,
            BaselinePhase::CheckStaged,
            BaselinePhase::QueryHead,
            BaselinePhase::Done,
        ],
        forall|j: int|
            0 <= j < spec_baseline_phases(true, false).len()
                ==> #[trigger] spec_baseline_phases(true, false)[j]
                != BaselinePhase::CommitGenesis,
{
}

/// The rollback commands: hard-reset the working tree and index to the
/// given revision, then remove all untracked files and directories. This is
/// the sole rollback mechanism of a run.
pub fn revert_commands(revision: &String) -> (r: Vec<Vec<String>>)
    ensures
        r.deep_view() == seq![
            seq!["reset"@, "--hard"@, revision@],
            seq!["clean"@, "-fd"@],
        ],
{
    let mut reset: Vec<String> = Vec::new();
    reset.push(String::from_str("reset"));
    reset.push(String::from_str("--hard"));
    reset.push(revision.clone());
    let mut clean: Vec<String> = Vec::new();
    clean.push(String::from_str("clean"));
    clean.push(String::from_str("-fd"));
    let mut r: Vec<Vec<String>> = Vec::new();
    r.push(reset);
    r.push(clean);
    proof {
        assert(r.deep_view()[0] =~= seq!["reset"@, "--hard"@, revision@]);
        assert(r.deep_view()[1] =~= seq!["clean"@, "-fd"@]);
        assert(r.deep_view() =~= seq![
            seq!["reset"@, "--hard"@, revision@],
            seq!["clean"@, "-fd"@],
        ]);
    }
    r
}

} // verus!
