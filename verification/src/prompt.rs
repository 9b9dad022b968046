//! Context-aware instruction construction: the exact text handed to the
//! mutation agent, built from the inferred project language, the tracked
//! files, the resolved test command and the raw instruction. A pure text
//! transformation.

use vstd::prelude::*;
use crate::project::{
    default_test_command, language_name, infer_project_type, spec_code_quality_requirements,
    spec_default_test_command, spec_infer_project_type, spec_language_name,
    spec_test_quality_requirements, get_code_quality_requirements, get_test_quality_requirements,
    ProjectType,
};
use crate::text::{
    contains_str, find_char, spec_contains, spec_starts_with, spec_trim, spec_trim_char,
    starts_with_str, str_eq, substr_copy, trim_char, trim_spaces,
};

verus! {

/// `s` with all trailing slashes removed.
pub open spec fn spec_strip_trailing_slashes(s: Seq<char>) -> Seq<char>
    decreases s.len(),
{
    if s.len() > 0 && s.last() == '/' {
        spec_strip_trailing_slashes(s.drop_last())
    } else {
        s
    }
}

/// The suffix of `s` after its last slash; all of `s` when it has none.
pub open spec fn spec_after_last_slash(s: Seq<char>) -> Seq<char>
    decreases s.len(),
{
    if s.len() == 0 {
        s
    } else if s.last() == '/' {
        Seq::empty()
    } else {
        spec_after_last_slash(s.drop_last()).push(s.last())
    }
}

/// The display name of the target project: the last path component of the
/// target directory, or a generic fallback where the path has no usable
/// final component.
pub open spec fn spec_project_name(dir: Seq<char>) -> Seq<char> {
    let t = spec_after_last_slash(spec_strip_trailing_slashes(dir));
    if t.len() == 0 || t == "."@ || t == ".."@ {
        "project"@
    } else {
        t
    }
}

proof fn lemma_strip_trailing_slashes_take(s: Seq<char>, b: int)
    requires
        0 <= b <= s.len(),
        forall|k: int| b <= k < s.len() ==> s[k] == '/',
        b == 0 || s[b - 1] != '/',
    ensures
        spec_strip_trailing_slashes(s) == s.take(b),
    decreases s.len(),
{
    if b == s.len() {
        assert(s.take(b) =~= s);
    } else {
        lemma_strip_trailing_slashes_take(s.drop_last(), b);
        assert(s.drop_last().take(b) =~= s.take(b));
    }
}

proof fn lemma_after_last_slash_skip(s: Seq<char>, a: int)
    requires
        0 <= a <= s.len(),
        forall|k: int| a <= k < s.len() ==> s[k] != '/',
        a == 0 || s[a - 1] == '/',
    ensures
        spec_after_last_slash(s) == s.skip(a),
    decreases s.len(),
{
    if s.len() == 0 {
        assert(s.skip(a) =~= s);
    } else if a == s.len() {
        assert(s.last() == '/');
        assert(s.skip(a) =~= Seq::<char>::empty());
    } else {
        assert(s.last() != '/');
        lemma_after_last_slash_skip(s.drop_last(), a);
        assert(s.drop_last().skip(a).push(s.last()) =~= s.skip(a));
    }
}

/// The last path component of the target directory, or a generic fallback.
pub fn project_name_of(dir: &str) -> (r: String)
    ensures
        r@ == spec_project_name(dir@),
{
    let n = dir.unicode_len();
    let mut b: usize = n;
    while b > 0 && dir.get_char(b - 1) == '/'
        invariant
            n == dir@.len(),
            b <= n,
            forall|k: int| b <= k < n ==> dir@[k] == '/',
        decreases b,
    {
        b = b - 1;
    }
    let mut a: usize = b;
    while a > 0 && dir.get_char(a - 1) != '/'
        invariant
            a <= b <= n,
            n == dir@.len(),
            forall|k: int| a <= k < b ==> dir@[k] != '/',
        decreases a,
    {
        a = a - 1;
    }
    proof {
        lemma_strip_trailing_slashes_take(dir@, b as int);
        lemma_after_last_slash_skip(dir@.take(b as int), a as int);
        assert(dir@.take(b as int).skip(a as int) =~= dir@.subrange(a as int, b as int));
    }
    let t = substr_copy(dir, a, b);
    if t.as_str().unicode_len() == 0 || str_eq(t.as_str(), ".") || str_eq(t.as_str(), "..") {
        String::from_str("project")
    } else {
        t
    }
}

/// A carriage return left at the end of a line by a CRLF break, removed.
pub open spec fn spec_strip_cr(line: Seq<char>) -> Seq<char> {
    if line.len() > 0 && line.last() == '\r' {
        line.drop_last()
    } else {
        line
    }
}

/// The lines of `s` after the partial line `cur`, as `str::lines` yields
/// them: split at every line feed, with a carriage return before the break
/// removed, and no final empty line after a trailing break.
pub open spec fn spec_lines_from(s: Seq<char>, cur: Seq<char>) -> Seq<Seq<char>>
    decreases s.len(),
{
    if s.len() == 0 {
        if cur.len() == 0 {
            Seq::empty()
        } else {
            seq![spec_strip_cr(cur)]
        }
    } else if s[0] == '\n' {
        seq![spec_strip_cr(cur)] + spec_lines_from(s.drop_first(), Seq::empty())
    } else {
        spec_lines_from(s.drop_first(), cur.push(s[0]))
    }
}

/// The lines of `s`.
pub open spec fn spec_lines(s: Seq<char>) -> Seq<Seq<char>> {
    spec_lines_from(s, Seq::empty())
}

/// Split `s` into lines.
#[verifier::loop_isolation(false)]
pub fn split_lines(s: &str) -> (r: Vec<String>)
    ensures
        r.deep_view() == spec_lines(s@),
{
    let n = s.unicode_len();
    let mut res: Vec<String> = Vec::new();
    let mut i: usize = 0;
    let mut start: usize = 0;
    proof {
        assert(s@.skip(0) =~= s@);
        assert(s@.subrange(0, 0) =~= Seq::<char>::empty());
        assert(res.deep_view() =~= Seq::<Seq<char>>::empty());
    }
    while i < n
        invariant
            n == s@.len(),
            start <= i <= n,
            spec_lines(s@) == res.deep_view() + spec_lines_from(
                s@.skip(i as int),
                s@.subrange(start as int, i as int),
            ),
        decreases n - i,
    {
        let ghost rest = s@.skip(i as int);
        let ghost cur = s@.subrange(start as int, i as int);
        proof {
            assert(rest[0] == s@[i as int]);
            assert(rest.drop_first() =~= s@.skip(i as int + 1));
        }
        let c = s.get_char(i);
        if c == '\n' {
            let line = if start < i && s.get_char(i - 1) == '\r' {
                proof {
                    assert(cur.drop_last() =~= s@.subrange(start as int, i as int - 1));
                }
                substr_copy(s, start, i - 1)
            } else {
                substr_copy(s, start, i)
            };
            let ghost old_dv = res.deep_view();
            res.push(line);
            proof {
                assert(res.deep_view() =~= old_dv.push(spec_strip_cr(cur)));
                assert(spec_lines_from(rest, cur) == seq![spec_strip_cr(cur)] + spec_lines_from(
                    s@.skip(i as int + 1),
                    Seq::empty(),
                ));
                assert(old_dv + (seq![spec_strip_cr(cur)] + spec_lines_from(
                    s@.skip(i as int + 1),
                    Seq::empty(),
                )) =~= old_dv.push(spec_strip_cr(cur)) + spec_lines_from(
                    s@.skip(i as int + 1),
                    Seq::empty(),
                ));
            }
            i = i + 1;
            start = i;
            proof {
                assert(s@.subrange(start as int, i as int) =~= Seq::<char>::empty());
            }
        } else {
            proof {
                assert(spec_lines_from(rest, cur) == spec_lines_from(
                    rest.drop_first(),
                    cur.push(s@[i as int]),
                ));
                assert(cur.push(s@[i as int]) =~= s@.subrange(start as int, i as int + 1));
            }
            i = i + 1;
        }
    }
    proof {
        assert(s@.skip(n as int) =~= Seq::<char>::empty());
    }
    if start < i {
        let ghost cur = s@.subrange(start as int, n as int);
        let line = if s.get_char(i - 1) == '\r' {
            proof {
                assert(cur.drop_last() =~= s@.subrange(start as int, n as int - 1));
            }
            substr_copy(s, start, i - 1)
        } else {
            substr_copy(s, start, i)
        };
        let ghost old_dv = res.deep_view();
        res.push(line);
        proof {
            assert(res.deep_view() =~= old_dv.push(spec_strip_cr(cur)));
            assert(old_dv + seq![spec_strip_cr(cur)] =~= old_dv.push(spec_strip_cr(cur)));
        }
    } else {
        proof {
            let cur = s@.subrange(start as int, n as int);
            assert(spec_lines_from(Seq::<char>::empty(), cur) =~= Seq::<Seq<char>>::empty());
            assert(res.deep_view() + Seq::<Seq<char>>::empty() =~= res.deep_view());
        }
    }
    res
}

/// The first line that opens with the test-command key, if any.
pub open spec fn spec_first_tc_line(lines: Seq<Seq<char>>) -> Option<Seq<char>>
    decreases lines.len(),
{
    if lines.len() == 0 {
        None
    } else if spec_starts_with(lines.first(), "test_command"@) {
        Some(lines.first())
    } else {
        spec_first_tc_line(lines.drop_first())
    }
}

/// The characters of `s` before its first `=`; all of `s` without one.
pub open spec fn spec_until_eq(s: Seq<char>) -> Seq<char>
    decreases s.len(),
{
    if s.len() == 0 {
        Seq::empty()
    } else if s[0] == '=' {
        Seq::empty()
    } else {
        seq![s[0]] + spec_until_eq(s.drop_first())
    }
}

/// The segment of `line` strictly between its first `=` and the next `=`
/// or the end; nothing when the line has no `=` at all.
pub open spec fn spec_after_first_eq(line: Seq<char>) -> Option<Seq<char>>
    decreases line.len(),
{
    if line.len() == 0 {
        None
    } else if line[0] == '=' {
        Some(spec_until_eq(line.drop_first()))
    } else {
        spec_after_first_eq(line.drop_first())
    }
}

proof fn lemma_after_first_eq_none(line: Seq<char>)
    requires
        forall|k: int| 0 <= k < line.len() ==> line[k] != '=',
    ensures
        spec_after_first_eq(line) is None,
    decreases line.len(),
{
    if line.len() > 0 {
        lemma_after_first_eq_none(line.drop_first());
    }
}

proof fn lemma_after_first_eq_at(line: Seq<char>, p: int)
    requires
        0 <= p < line.len(),
        line[p] == '=',
        forall|k: int| 0 <= k < p ==> line[k] != '=',
    ensures
        spec_after_first_eq(line) == Some(spec_until_eq(line.skip(p + 1))),
    decreases p,
{
    if p == 0 {
        assert(line.drop_first() =~= line.skip(1));
    } else {
        lemma_after_first_eq_at(line.drop_first(), p - 1);
        assert(line.drop_first().skip(p) =~= line.skip(p + 1));
    }
}

proof fn lemma_until_eq_take(s: Seq<char>, m: int)
    requires
        0 <= m <= s.len(),
        forall|k: int| 0 <= k < m ==> s[k] != '=',
        m == s.len() || s[m] == '=',
    ensures
        spec_until_eq(s) == s.take(m),
    decreases m,
{
    if m == 0 {
        assert(s.take(0) =~= Seq::<char>::empty());
    } else {
        lemma_until_eq_take(s.drop_first(), m - 1);
        assert(seq![s[0]] + s.drop_first().take(m - 1) =~= s.take(m));
    }
}

/// The test command the configuration document states, read with a plain
/// key scan: the first line opening with the test-command key, the raw
/// text between its first `=` and any second `=`, trimmed of whitespace
/// and then of double quotes.
pub open spec fn spec_extract_test_command(content: Seq<char>) -> Option<Seq<char>> {
    match spec_first_tc_line(spec_lines(content)) {
        None => None,
        Some(line) => match spec_after_first_eq(line) {
            None => None,
            Some(seg) => Some(spec_trim_char(spec_trim(seg), '"')),
        },
    }
}

/// Scan the configuration document's text for the configured test command.
#[verifier::loop_isolation(false)]
pub fn extract_test_command(content: &str) -> (r: Option<String>)
    ensures
        r is Some <==> spec_extract_test_command(content@) is Some,
        r is Some ==> r.unwrap()@ == spec_extract_test_command(content@).unwrap(),
{
    let lines = split_lines(content);
    let n = lines.len();
    let mut i: usize = 0;
    proof {
        assert(lines.deep_view().skip(0) =~= lines.deep_view());
    }
    while i < n
        invariant
            n == lines.len(),
            i <= n,
            spec_first_tc_line(lines.deep_view()) == spec_first_tc_line(
                lines.deep_view().skip(i as int),
            ),
        decreases n - i,
    {
        let ghost rest = lines.deep_view().skip(i as int);
        proof {
            assert(rest.first() == lines.deep_view()[i as int]);
            assert(lines.deep_view()[i as int] == lines@[i as int]@);
            assert(rest.drop_first() =~= lines.deep_view().skip(i as int + 1));
        }
        if starts_with_str(lines[i].as_str(), "test_command") {
            let line = &lines[i];
            let line_len = line.as_str().unicode_len();
            let p = match find_char(line.as_str(), 0, '=') {
                Some(p) => p,
                None => {
                    proof {
                        lemma_after_first_eq_none(line@);
                    }
                    return None;
                },
            };
            let q = match find_char(line.as_str(), p + 1, '=') {
                Some(q) => q,
                None => line_len,
            };
            proof {
                lemma_after_first_eq_at(line@, p as int);
                lemma_until_eq_take(line@.skip(p as int + 1), q - p - 1);
                assert(line@.skip(p as int + 1).take(q - p - 1) =~= line@.subrange(
                    p as int + 1,
                    q as int,
                ));
            }
            let seg = substr_copy(line.as_str(), p + 1, q);
            let trimmed = trim_spaces(seg.as_str());
            let result = trim_char(trimmed.as_str(), '"');
            return Some(result);
        }
        i = i + 1;
    }
    proof {
        assert(lines.deep_view().skip(n as int) =~= Seq::<Seq<char>>::empty());
    }
    None
}

/// The test command the prompt states: the one the configuration document
/// names where it can be read, else the project type's default.
pub open spec fn spec_resolved_test_command(
    content: Option<Seq<char>>,
    t: ProjectType,
) -> Seq<char> {
    match content {
        Some(c) => match spec_extract_test_command(c) {
            Some(tc) => tc,
            None => spec_default_test_command(t),
        },
        None => spec_default_test_command(t),
    }
}

/// Resolve the test command the prompt will state.
pub fn resolved_test_command(content: Option<&str>, t: ProjectType) -> (r: String)
    ensures
        r@ == spec_resolved_test_command(
            match content {
                Some(c) => Some(c@),
                None => None,
            },
            t,
        ),
{
    match content {
        Some(c) => match extract_test_command(c) {
            Some(tc) => tc,
            None => default_test_command(t),
        },
        None => default_test_command(t),
    }
}

/// The annotation a file gets in the prompt's enumeration: a simple
/// name-based heuristic.
pub open spec fn spec_file_kind(f: Seq<char>) -> Seq<char> {
    if spec_contains(f, "test"@) {
        "test code"@
    } else {
        "library code"@
    }
}

/// One line of the enumerated-files section.
pub open spec fn spec_file_line(f: Seq<char>) -> Seq<char> {
    "- "@ + f + " ("@ + spec_file_kind(f) + ")\n"@
}

/// The enumerated-files section: one annotated line per tracked file, in
/// order.
pub open spec fn spec_files_section(files: Seq<Seq<char>>) -> Seq<char>
    decreases files.len(),
{
    if files.len() == 0 {
        Seq::empty()
    } else {
        spec_files_section(files.drop_last()) + spec_file_line(files.last())
    }
}

/// The role framing that opens the prompt.
pub open spec fn spec_role_section(t: ProjectType, name: Seq<char>) -> Seq<char> {
    "ROLE & CONTEXT:\nYou are an expert "@ + spec_language_name(t)
        + " engineer working on the '"@ + name + "' project.\nCurrent files being evolved:\n"@
}

/// Everything after the enumerated-files section: the test command, both
/// quality checklists, the test-driven protocol, the task, and the fixed
/// constraints block.
pub open spec fn spec_prompt_tail(
    t: ProjectType,
    test_command: Seq<char>,
    instruction: Seq<char>,
) -> Seq<char> {
    "Test command: "@ + test_command + "\n\nCODE QUALITY REQUIREMENTS:\n"@
        + spec_code_quality_requirements(t) + "\nTEST QUALITY REQUIREMENTS:\n"@
        + spec_test_quality_requirements(t)
        + "\nTDD PROTOCOL:\n1. ANALYZE: Review existing code structure in the tracked files\n2. TEST FIRST: Write comprehensive failing tests that cover:\n- Happy path scenarios (normal, expected usage)\n- Edge cases and boundary conditions (empty inputs, zero, negative numbers, etc.)\n- Error handling (invalid inputs, resource failures)\n3. IMPLEMENT: Write minimal, clean code to pass all tests\n4. REFACTOR: Improve code quality while keeping tests green\n5. VERIFY: Ensure all tests pass with `"@
        + test_command + "`\n\nTASK:\n"@ + instruction
        + "\n\nCONSTRAINTS:\n- Do NOT delete existing valid tests\n- Maintain backward compatibility with existing code\n- Follow the project's existing code style and conventions\n- Write production-quality code, not just code that passes tests\n"@
}

/// The whole prompt: role framing, enumerated files, then the tail.
pub open spec fn spec_prompt(
    t: ProjectType,
    name: Seq<char>,
    files: Seq<Seq<char>>,
    test_command: Seq<char>,
    instruction: Seq<char>,
) -> Seq<char> {
    spec_role_section(t, name) + spec_files_section(files) + spec_prompt_tail(
        t,
        test_command,
        instruction,
    )
}

/// Prompt construction is a pure function of the inferred project type,
/// project name, file list, test command and instruction — the builder's
/// contract pins the text to [`spec_prompt`] — and changing only the file
/// list changes only the enumerated-files section: the text before it and
/// the text after it are the same for any two file lists.
pub proof fn lemma_prompt_files_localized(
    t: ProjectType,
    name: Seq<char>,
    files1: Seq<Seq<char>>,
    files2: Seq<Seq<char>>,
    test_command: Seq<char>,
    instruction: Seq<char>,
)
    ensures
        spec_prompt(t, name, files1, test_command, instruction) == spec_role_section(t, name)
            + spec_files_section(files1) + spec_prompt_tail(t, test_command, instruction),
        spec_prompt(t, name, files2, test_command, instruction) == spec_role_section(t, name)
            + spec_files_section(files2) + spec_prompt_tail(t, test_command, instruction),
{
}

/// The project type the prompt goes by: inference from the tracked files,
/// defaulting to Rust.
pub open spec fn spec_prompt_project_type(files: Seq<Seq<char>>) -> ProjectType {
    match spec_infer_project_type(files) {
        Some(t) => t,
        None => ProjectType::Rust,
    }
}

/// Build the enhanced, context-aware prompt for the mutation agent.
/// `config_content` is the text of the target's configuration document
/// where one could be read; the test command stated in the prompt comes
/// from it, else from the project type's default.
#[verifier::loop_isolation(false)]
pub fn build_enhanced_prompt(
    target_dir: &str,
    instruction: &str,
    files: &Vec<String>,
    config_content: Option<&str>,
) -> (r: String)
    ensures
        r@ == spec_prompt(
            spec_prompt_project_type(files.deep_view()),
            spec_project_name(target_dir@),
            files.deep_view(),
            spec_resolved_test_command(
                match config_content {
                    Some(c) => Some(c@),
                    None => None,
                },
                spec_prompt_project_type(files.deep_view()),
            ),
            instruction@,
        ),
{
    let t = match infer_project_type(files) {
        Some(t) => t,
        None => ProjectType::Rust,
    };
    let name = project_name_of(target_dir);
    let test_command = resolved_test_command(config_content, t);
    let ghost role = spec_role_section(t, name@);

    let mut p = String::from_str("ROLE & CONTEXT:\nYou are an expert ");
    p.append(language_name(t));
    p.append(" engineer working on the '");
    p.append(name.as_str());
    p.append("' project.\nCurrent files being evolved:\n");
    proof {
        assert(p@ =~= role);
        assert(files.deep_view().take(0) =~= Seq::<Seq<char>>::empty());
        assert(role + spec_files_section(files.deep_view().take(0)) =~= role);
    }
    let n = files.len();
    let mut i: usize = 0;
    while i < n
        invariant
            i <= n,
            p@ == role + spec_files_section(files.deep_view().take(i as int)),
        decreases n - i,
    {
        let ghost before = p@;
        let ghost fv = files.deep_view()[i as int];
        proof {
            assert(fv == files@[i as int]@);
        }
        p.append("- ");
        p.append(files[i].as_str());
        p.append(" (");
        if contains_str(files[i].as_str(), "test") {
            p.append("test code");
        } else {
            p.append("library code");
        }
        p.append(")\n");
        proof {
            assert(p@ =~= before + spec_file_line(fv));
            let taken = files.deep_view().take(i as int + 1);
            assert(taken.drop_last() =~= files.deep_view().take(i as int));
            assert(taken.last() == fv);
            assert(before + spec_file_line(fv) =~= role + spec_files_section(taken));
        }
        i = i + 1;
    }
    proof {
        assert(files.deep_view().take(n as int) =~= files.deep_view());
    }
    let ghost enumerated = p@;
    p.append("Test command: ");
    p.append(test_command.as_str());
    p.append("\n\nCODE QUALITY REQUIREMENTS:\n");
    let code_quality = get_code_quality_requirements(t);
    p.append(code_quality.as_str());
    p.append("\nTEST QUALITY REQUIREMENTS:\n");
    let test_quality = get_test_quality_requirements(t);
    p.append(test_quality.as_str());
    p.append(
        "\nTDD PROTOCOL:\n1. ANALYZE: Review existing code structure in the tracked files\n2. TEST FIRST: Write comprehensive failing tests that cover:\n- Happy path scenarios (normal, expected usage)\n- Edge cases and boundary conditions (empty inputs, zero, negative numbers, etc.)\n- Error handling (invalid inputs, resource failures)\n3. IMPLEMENT: Write minimal, clean code to pass all tests\n4. REFACTOR: Improve code quality while keeping tests green\n5. VERIFY: Ensure all tests pass with `",
    );
    p.append(test_command.as_str());
    p.append("`\n\nTASK:\n");
    p.append(instruction);
    p.append(
        "\n\nCONSTRAINTS:\n- Do NOT delete existing valid tests\n- Maintain backward compatibility with existing code\n- Follow the project's existing code style and conventions\n- Write production-quality code, not just code that passes tests\n",
    );
    proof {
        assert(p@ =~= enumerated + spec_prompt_tail(t, test_command@, instruction@));
    }
    p
}

} // verus!
