//! The validated evolution configuration: raw values as read from the
//! configuration document, defaulting, and the well-formedness invariant.

use vstd::prelude::*;
use crate::errors::EvolveError;

verus! {

/// The configuration document's top-level table.
#[derive(Debug)]
pub struct EvolutionConfig {
    pub evolution: EvolutionSettings,
}

/// The settings of a run, immutable once resolved.
#[derive(Debug)]
pub struct EvolutionSettings {
    /// The user's change request; never empty.
    pub instruction: String,
    /// Shell command line whose exit status is the fitness signal.
    pub test_command: String,
    /// Upper bound on mutation attempts; at least 1.
    pub max_generations: u32,
    /// The exclusive set of files exposed to the mutation agent; never empty.
    pub files: Vec<String>,
    /// Overrides automatic project-type inference.
    pub project_type: Option<String>,
    /// Overrides automatic project-type bootstrapping.
    pub bootstrap_command: Option<String>,
    /// Overrides scaffold-content inference from each file's own extension.
    pub file_extension: Option<String>,
    /// Custom content for scaffolded files.
    pub scaffold_content: Option<String>,
    /// Informational only; not consumed by the core loop.
    pub primary_file: Option<String>,
}

/// The settings as the configuration document gives them, before
/// defaulting and validation.
#[derive(Debug)]
pub struct RawSettings {
    pub instruction: Option<String>,
    pub test_command: Option<String>,
    pub max_generations: Option<u32>,
    pub files: Option<Vec<String>>,
    pub project_type: Option<String>,
    pub bootstrap_command: Option<String>,
    pub file_extension: Option<String>,
    pub scaffold_content: Option<String>,
    pub primary_file: Option<String>,
}

/// The default fitness command.
pub fn default_test_cmd() -> (r: String)
    ensures
        r@ == "cargo nextest run"@,
{
    String::from_str("cargo nextest run")
}

/// The default generation budget.
pub fn default_generations() -> (r: u32)
    ensures
        r == 5,
{
    5
}

/// The file list used when the configuration names none.
pub open spec fn spec_default_files() -> Seq<Seq<char>> {
    seq!["src/lib.rs"@]
}

/// Default fallback if the configuration does not specify files.
pub fn default_files() -> (r: Vec<String>)
    ensures
        r.deep_view() == spec_default_files(),
{
    let mut v: Vec<String> = Vec::new();
    v.push(String::from_str("src/lib.rs"));
    proof {
        assert(v.deep_view() =~= spec_default_files());
    }
    v
}

/// Does `p` hold a `..` path component?
pub open spec fn spec_has_dotdot(p: Seq<char>) -> bool {
    exists|i: int|
        0 <= i && i + 2 <= p.len() && (#[trigger] p[i]) == '.' && p[i + 1] == '.' && (i == 0 || p[i
            - 1] == '/') && (i + 2 == p.len() || p[i + 2] == '/')
}

/// A path the agent may see: non-empty, relative, and resolving inside the
/// target directory (no `..` component).
pub open spec fn spec_path_is_safe(p: Seq<char>) -> bool {
    p.len() > 0 && p[0] != '/' && !spec_has_dotdot(p)
}

/// Executable test for [`spec_path_is_safe`].
pub fn path_is_safe(p: &str) -> (r: bool)
    ensures
        r == spec_path_is_safe(p@),
{
    let n = p.unicode_len();
    if n == 0 {
        return false;
    }
    if p.get_char(0) == '/' {
        return false;
    }
    let mut i: usize = 0;
    while n >= 2 && i <= n - 2
        invariant
            n == p@.len(),
            i <= n,
            forall|j: int|
                0 <= j < i ==> !((#[trigger] p@[j]) == '.' && p@[j + 1] == '.' && (j == 0 || p@[j
                    - 1] == '/') && (j + 2 == p@.len() || p@[j + 2] == '/')),
        decreases n - i,
    {
        if p.get_char(i) == '.' && p.get_char(i + 1) == '.' {
            let left_ok = i == 0 || p.get_char(i - 1) == '/';
            let right_ok = i + 2 == n || p.get_char(i + 2) == '/';
            if left_ok && right_ok {
                return false;
            }
        }
        i = i + 1;
    }
    proof {
        assert(!spec_has_dotdot(p@));
    }
    true
}

/// The file list after defaulting: the configured list where it is
/// non-empty, else the single conventional entry file.
pub open spec fn spec_effective_files(raw: Option<Seq<Seq<char>>>) -> Seq<Seq<char>> {
    match raw {
        Some(fs) => if fs.len() > 0 {
            fs
        } else {
            spec_default_files()
        },
        None => spec_default_files(),
    }
}

/// Do the raw settings resolve without a configuration error?
pub open spec fn spec_resolvable(raw: RawSettings) -> bool {
    &&& raw.instruction is Some
    &&& raw.instruction.unwrap()@.len() > 0
    &&& (raw.max_generations is Some ==> raw.max_generations.unwrap() >= 1)
    &&& forall|k: int|
        0 <= k < spec_effective_files(raw_files_view(raw)).len() ==> spec_path_is_safe(
            #[trigger] spec_effective_files(raw_files_view(raw))[k],
        )
}

/// The configured file list, as character sequences.
pub open spec fn raw_files_view(raw: RawSettings) -> Option<Seq<Seq<char>>> {
    match raw.files {
        Some(fs) => Some(fs.deep_view()),
        None => None,
    }
}

/// The well-formedness invariant every resolved settings value satisfies.
pub open spec fn settings_wf(s: EvolutionSettings) -> bool {
    &&& s.instruction@.len() > 0
    &&& s.max_generations >= 1
    &&& s.files.deep_view().len() > 0
    &&& forall|k: int|
        0 <= k < s.files.deep_view().len() ==> spec_path_is_safe(#[trigger] s.files.deep_view()[k])
}

/// Resolve raw configuration values into run settings: fail on a missing or
/// empty instruction, a zero generation budget, or a file path that could
/// escape the target directory; default every optional field.
#[verifier::loop_isolation(false)]
pub fn resolve_settings(raw: RawSettings) -> (r: Result<EvolutionSettings, EvolveError>)
    ensures
        r is Ok <==> spec_resolvable(raw),
        r is Err ==> r == Err::<EvolutionSettings, EvolveError>(EvolveError::ConfigError),
        r is Ok ==> {
            let s = r.unwrap();
            &&& s.instruction@ == raw.instruction.unwrap()@
            &&& s.test_command@ == (match raw.test_command {
                Some(t) => t@,
                None => "cargo nextest run"@,
            })
            &&& s.max_generations == (match raw.max_generations {
                Some(g) => g,
                None => 5u32,
            })
            &&& s.files.deep_view() == spec_effective_files(raw_files_view(raw))
            &&& s.project_type == raw.project_type
            &&& s.bootstrap_command == raw.bootstrap_command
            &&& s.file_extension == raw.file_extension
            &&& s.scaffold_content == raw.scaffold_content
            &&& s.primary_file == raw.primary_file
            &&& settings_wf(s)
        },
{
    let ghost raw0 = raw;
    let RawSettings {
        instruction,
        test_command,
        max_generations,
        files,
        project_type,
        bootstrap_command,
        file_extension,
        scaffold_content,
        primary_file,
    } = raw;
    let instruction = match instruction {
        Some(i) => i,
        None => {
            return Err(EvolveError::ConfigError);
        },
    };
    if instruction.as_str().unicode_len() == 0 {
        return Err(EvolveError::ConfigError);
    }
    let max_generations = match max_generations {
        Some(g) => {
            if g == 0 {
                return Err(EvolveError::ConfigError);
            }
            g
        },
        None => default_generations(),
    };
    let files = match files {
        Some(fs) => {
            if fs.len() > 0 {
                fs
            } else {
                default_files()
            }
        },
        None => default_files(),
    };
    proof {
        assert(spec_effective_files(raw_files_view(raw0)) == files.deep_view());
    }
    let mut k: usize = 0;
    let n = files.len();
    while k < n
        invariant
            n == files.len(),
            k <= n,
            spec_effective_files(raw_files_view(raw0)) == files.deep_view(),
            forall|j: int| 0 <= j < k ==> spec_path_is_safe(#[trigger] files.deep_view()[j]),
        decreases n - k,
    {
        let path_ok = path_is_safe(files[k].as_str());
        proof {
            assert(files.deep_view()[k as int] == files@[k as int]@);
            assert(path_ok == spec_path_is_safe(files@[k as int]@));
        }
        if !path_ok {
            proof {
                assert(!spec_path_is_safe(spec_effective_files(raw_files_view(raw0))[k as int]));
            }
            return Err(EvolveError::ConfigError);
        }
        k = k + 1;
    }
    let test_command = match test_command {
        Some(t) => t,
        None => default_test_cmd(),
    };
    Ok(EvolutionSettings {
        instruction,
        test_command,
        max_generations,
        files,
        project_type,
        bootstrap_command,
        file_extension,
        scaffold_content,
        primary_file,
    })
}

} // verus!
