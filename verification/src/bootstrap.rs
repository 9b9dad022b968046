//! Bootstrap planning: decide which initializer to run for an
//! unbootstrapped target and which missing files to scaffold. The plan is
//! pure data; a driver performs the filesystem writes and process calls.

use vstd::prelude::*;
use crate::errors::EvolveError;
use crate::project::{
    infer_project_type, parse_project_type, spec_infer_project_type, spec_parse_project_type,
    spec_scaffold_content, infer_scaffold_content, ProjectType,
};
use crate::settings::EvolutionSettings;
use crate::text::{contains_str, spec_contains, spec_tokens, tokenize};

verus! {

/// The single process invocation a bootstrap plan may call for.
pub enum BootstrapAction {
    /// The configured bootstrap command, tokenized; a failure is logged and
    /// swallowed. An empty token list means there is nothing to run.
    RunCustom { tokens: Vec<String> },
    /// A built-in project initializer; a failure is fatal.
    RunInitializer { program: String, args: Vec<String> },
    /// No initializer applies.
    SkipBootstrap,
}

/// A file to create, with its content; never an existing file.
pub struct ScaffoldFile {
    pub path: String,
    pub content: String,
}

/// What bootstrapping will do: one optional process call, then the
/// scaffolds, in file-list order.
pub struct BootstrapPlan {
    pub action: BootstrapAction,
    pub scaffolds: Vec<ScaffoldFile>,
}

/// The scaffold list as path/content character sequences.
pub open spec fn scaffolds_view(v: Vec<ScaffoldFile>) -> Seq<(Seq<char>, Seq<char>)> {
    Seq::new(v@.len(), |i: int| (v@[i].path@, v@[i].content@))
}

/// The content a scaffolded file gets: the configured override, else
/// content inferred from the configured extension or the file's own name.
pub open spec fn spec_content_for(
    file: Seq<char>,
    override_content: Option<Seq<char>>,
    ext: Option<Seq<char>>,
) -> Seq<char> {
    match override_content {
        Some(c) => c,
        None => spec_scaffold_content(file, ext),
    }
}

/// The scaffolds of a bootstrap run: one entry per file that does not
/// exist, in file-list order, with its chosen content.
pub open spec fn spec_scaffold_plan(
    files: Seq<Seq<char>>,
    present: Seq<bool>,
    override_content: Option<Seq<char>>,
    ext: Option<Seq<char>>,
) -> Seq<(Seq<char>, Seq<char>)>
    decreases files.len(),
{
    if files.len() == 0 {
        Seq::empty()
    } else {
        let rest = spec_scaffold_plan(
            files.drop_last(),
            present.drop_last(),
            override_content,
            ext,
        );
        if present.len() > 0 && present.last() {
            rest
        } else {
            rest.push((files.last(), spec_content_for(files.last(), override_content, ext)))
        }
    }
}

/// Does some tracked file name the conventional library entry file?
pub open spec fn spec_wants_library(files: Seq<Seq<char>>) -> bool {
    exists|k: int| 0 <= k < files.len() && spec_contains(#[trigger] files[k], "lib.rs"@)
}

/// Does some file in `files` contain `needle` in its name?
fn any_contains(files: &Vec<String>, needle: &str) -> (r: bool)
    ensures
        r == exists|k: int|
            0 <= k < files.deep_view().len() && spec_contains(
                #[trigger] files.deep_view()[k],
                needle@,
            ),
{
    let n = files.len();
    let mut i: usize = 0;
    while i < n
        invariant
            n == files.len(),
            i <= n,
            forall|k: int|
                0 <= k < i ==> !spec_contains(#[trigger] files.deep_view()[k], needle@),
        decreases n - i,
    {
        proof {
            assert(files.deep_view()[i as int] == files@[i as int]@);
        }
        if contains_str(files[i].as_str(), needle) {
            return true;
        }
        i = i + 1;
    }
    false
}

/// The project type bootstrapping goes by: the explicit configuration
/// first, else inference from the tracked files.
pub open spec fn spec_effective_project_type(
    configured: Option<Seq<char>>,
    files: Seq<Seq<char>>,
) -> Option<ProjectType> {
    match configured {
        Some(tag) => Some(spec_parse_project_type(tag)),
        None => spec_infer_project_type(files),
    }
}

/// Does the bootstrap plan for these settings run the built-in project
/// initializer? Only a target with no recognized manifest, no configured
/// bootstrap command, and an (explicit or inferred) Rust project type does.
pub open spec fn spec_runs_initializer(s: EvolutionSettings, manifest_present: bool) -> bool {
    &&& s.bootstrap_command is None
    &&& !manifest_present
    &&& spec_effective_project_type(
        match s.project_type {
            Some(t) => Some(t@),
            None => None,
        },
        s.files.deep_view(),
    ) == Some(ProjectType::Rust)
}

/// Decide what bootstrapping does for these settings: which single process
/// call to make, and which missing files to scaffold with what content.
#[verifier::loop_isolation(false)]
pub fn plan_bootstrap(
    settings: &EvolutionSettings,
    manifest_present: bool,
    present: &Vec<bool>,
) -> (r: BootstrapPlan)
    requires
        present.len() == settings.files.len(),
    ensures
        scaffolds_view(r.scaffolds) == spec_scaffold_plan(
            settings.files.deep_view(),
            present@,
            match settings.scaffold_content {
                Some(c) => Some(c@),
                None => None,
            },
            match settings.file_extension {
                Some(e) => Some(e@),
                None => None,
            },
        ),
        match r.action {
            BootstrapAction::RunCustom { tokens } => settings.bootstrap_command is Some
                && tokens.deep_view() == spec_tokens(settings.bootstrap_command.unwrap()@),
            BootstrapAction::RunInitializer { program, args } => {
                &&& spec_runs_initializer(*settings, manifest_present)
                &&& program@ == "cargo"@
                &&& args.deep_view() == seq![
                    "init"@,
                    if spec_wants_library(settings.files.deep_view()) {
                        "--lib"@
                    } else {
                        "--bin"@
                    },
                ]
            },
            BootstrapAction::SkipBootstrap => settings.bootstrap_command is None && (manifest_present
                || !spec_runs_initializer(*settings, manifest_present)),
        },
{
    let action = match &settings.bootstrap_command {
        Some(cmd) => BootstrapAction::RunCustom { tokens: tokenize(cmd.as_str()) },
        None => {
            if manifest_present {
                BootstrapAction::SkipBootstrap
            } else {
                let effective = match &settings.project_type {
                    Some(tag) => Some(parse_project_type(tag.as_str())),
                    None => infer_project_type(&settings.files),
                };
                match effective {
                    Some(ProjectType::Rust) => {
                        let needs_lib = any_contains(&settings.files, "lib.rs");
                        let mut args: Vec<String> = Vec::new();
                        args.push(String::from_str("init"));
                        if needs_lib {
                            args.push(String::from_str("--lib"));
                        } else {
                            args.push(String::from_str("--bin"));
                        }
                        proof {
                            assert(args.deep_view() =~= seq![
                                "init"@,
                                if spec_wants_library(settings.files.deep_view()) {
                                    "--lib"@
                                } else {
                                    "--bin"@
                                },
                            ]);
                        }
                        BootstrapAction::RunInitializer {
                            program: String::from_str("cargo"),
                            args,
                        }
                    },
                    _ => BootstrapAction::SkipBootstrap,
                }
            }
        },
    };
    let ghost override_content = match &settings.scaffold_content {
        Some(c) => Some(c@),
        None => None,
    };
    let ghost ext_view = match &settings.file_extension {
        Some(e) => Some(e@),
        None => None,
    };
    let n = settings.files.len();
    let mut scaffolds: Vec<ScaffoldFile> = Vec::new();
    let mut i: usize = 0;
    proof {
        assert(settings.files.deep_view().take(0) =~= Seq::<Seq<char>>::empty());
        assert(present@.take(0) =~= Seq::<bool>::empty());
        assert(scaffolds_view(scaffolds) =~= Seq::<(Seq<char>, Seq<char>)>::empty());
    }
    while i < n
        invariant
            i <= n,
            scaffolds_view(scaffolds) == spec_scaffold_plan(
                settings.files.deep_view().take(i as int),
                present@.take(i as int),
                override_content,
                ext_view,
            ),
        decreases n - i,
    {
        let ghost fv = settings.files.deep_view().take(i as int + 1);
        let ghost pv = present@.take(i as int + 1);
        proof {
            assert(fv.drop_last() =~= settings.files.deep_view().take(i as int));
            assert(pv.drop_last() =~= present@.take(i as int));
            assert(fv.last() == settings.files.deep_view()[i as int]);
            assert(settings.files.deep_view()[i as int] == settings.files@[i as int]@);
        }
        if !present[i] {
            let path = settings.files[i].clone();
            let content = match &settings.scaffold_content {
                Some(c) => c.clone(),
                None => {
                    match &settings.file_extension {
                        Some(e) => infer_scaffold_content(
                            settings.files[i].as_str(),
                            Some(e.as_str()),
                        ),
                        None => infer_scaffold_content(settings.files[i].as_str(), None),
                    }
                },
            };
            let ghost before = scaffolds_view(scaffolds);
            scaffolds.push(ScaffoldFile { path, content });
            proof {
                assert(scaffolds_view(scaffolds) =~= before.push(
                    (fv.last(), spec_content_for(fv.last(), override_content, ext_view)),
                ));
            }
        }
        i = i + 1;
    }
    proof {
        assert(settings.files.deep_view().take(n as int) =~= settings.files.deep_view());
        assert(present@.take(n as int) =~= present@);
    }
    BootstrapPlan { action, scaffolds }
}

/// Judge a completed bootstrap process call: a failed custom command is
/// swallowed (the agent may still succeed against an unbootstrapped
/// project), a failed built-in initializer is fatal.
pub fn bootstrap_outcome(action: &BootstrapAction, success: bool) -> (r: Result<(), EvolveError>)
    ensures
        r is Err <==> (action matches BootstrapAction::RunInitializer { .. } && !success),
        r is Err ==> r == Err::<(), EvolveError>(EvolveError::BootstrapError),
{
    match action {
        BootstrapAction::RunInitializer { .. } => {
            if success {
                Ok(())
            } else {
                Err(EvolveError::BootstrapError)
            }
        },
        _ => Ok(()),
    }
}

/// Bootstrapping is idempotent: the scaffold plan names only files that are
/// absent, and when every tracked file already exists it is empty, whatever
/// scaffold content is configured. Re-running bootstrap therefore never
/// overwrites an existing file's content.
pub proof fn lemma_bootstrap_idempotent(
    files: Seq<Seq<char>>,
    present: Seq<bool>,
    override_content: Option<Seq<char>>,
    ext: Option<Seq<char>>,
)
    requires
        files.len() == present.len(),
    ensures
        forall|j: int|
            0 <= j < spec_scaffold_plan(files, present, override_content, ext).len()
                ==> exists|k: int|
                0 <= k < files.len() && !present[k] && (#[trigger] spec_scaffold_plan(
                    files,
                    present,
                    override_content,
                    ext,
                )[j]).0 == files[k],
        (forall|k: int| 0 <= k < present.len() ==> present[k]) ==> spec_scaffold_plan(
            files,
            present,
            override_content,
            ext,
        ) == Seq::<(Seq<char>, Seq<char>)>::empty(),
    decreases files.len(),
{
    if files.len() == 0 {
        assert(spec_scaffold_plan(files, present, override_content, ext)
            =~= Seq::<(Seq<char>, Seq<char>)>::empty());
    } else {
        let fr = files.drop_last();
        let pr = present.drop_last();
        lemma_bootstrap_idempotent(fr, pr, override_content, ext);
        let rest = spec_scaffold_plan(fr, pr, override_content, ext);
        let whole = spec_scaffold_plan(files, present, override_content, ext);
        assert(forall|k: int| 0 <= k < fr.len() ==> fr[k] == files[k] && pr[k] == present[k]);
        assert forall|j: int| 0 <= j < whole.len() implies exists|k: int|
            0 <= k < files.len() && !present[k] && (#[trigger] whole[j]).0 == files[k] by {
            if j < rest.len() {
                assert(whole[j] == rest[j]);
                let k = choose|k: int| 0 <= k < fr.len() && !pr[k] && rest[j].0 == fr[k];
                assert(0 <= k < files.len() && !present[k] && whole[j].0 == files[k]);
            } else {
                assert(!present.last());
                assert(whole[j].0 == files.last());
                let k = files.len() - 1;
                assert(0 <= k < files.len() && !present[k] && whole[j].0 == files[k]);
            }
        }
        if forall|k: int| 0 <= k < present.len() ==> #[trigger] present[k] {
            assert(present.last());
            assert(forall|k: int| 0 <= k < pr.len() ==> #[trigger] pr[k]);
        }
    }
}

} // verus!
