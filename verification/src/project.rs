//! Project-type inference and the per-language value bundle: display name,
//! default test command, quality checklists and scaffold content.

use vstd::prelude::*;
use crate::text::{ends_with_str, spec_ends_with, str_eq};

verus! {

/// The kinds of target project the orchestrator recognizes. `Other` stands
/// for any explicitly configured type with no built-in support.
#[derive(Clone, Copy, Debug, PartialEq, Eq, Structural)]
pub enum ProjectType {
    Rust,
    Python,
    Other,
}

/// The project type a configured tag names.
pub open spec fn spec_parse_project_type(s: Seq<char>) -> ProjectType {
    if s == "rust"@ {
        ProjectType::Rust
    } else if s == "python"@ {
        ProjectType::Python
    } else {
        ProjectType::Other
    }
}

/// Map a configured project-type tag to a [`ProjectType`].
pub fn parse_project_type(s: &str) -> (r: ProjectType)
    ensures
        r == spec_parse_project_type(s@),
{
    if str_eq(s, "rust") {
        ProjectType::Rust
    } else if str_eq(s, "python") {
        ProjectType::Python
    } else {
        ProjectType::Other
    }
}

/// The project type inferred from a file list: the first recognized
/// extension wins, and an unrecognized list yields nothing.
pub open spec fn spec_infer_project_type(files: Seq<Seq<char>>) -> Option<ProjectType>
    decreases files.len(),
{
    if files.len() == 0 {
        None
    } else if spec_ends_with(files[0], ".rs"@) {
        Some(ProjectType::Rust)
    } else if spec_ends_with(files[0], ".py"@) {
        Some(ProjectType::Python)
    } else {
        spec_infer_project_type(files.drop_first())
    }
}

/// Infer the project type from the tracked file extensions.
pub fn infer_project_type(files: &Vec<String>) -> (r: Option<ProjectType>)
    ensures
        r == spec_infer_project_type(files.deep_view()),
{
    let n = files.len();
    let mut i: usize = 0;
    proof {
        assert(files.deep_view().skip(0) =~= files.deep_view());
    }
    while i < n
        invariant
            n == files.len(),
            i <= n,
            spec_infer_project_type(files.deep_view()) == spec_infer_project_type(
                files.deep_view().skip(i as int),
            ),
        decreases n - i,
    {
        let ghost rest = files.deep_view().skip(i as int);
        proof {
            assert(rest[0] == files.deep_view()[i as int]);
            assert(rest.drop_first() =~= files.deep_view().skip(i as int + 1));
        }
        if ends_with_str(files[i].as_str(), ".rs") {
            return Some(ProjectType::Rust);
        }
        if ends_with_str(files[i].as_str(), ".py") {
            return Some(ProjectType::Python);
        }
        i = i + 1;
    }
    proof {
        assert(files.deep_view().skip(n as int) =~= Seq::<Seq<char>>::empty());
    }
    None
}

/// The display name of a project type's language.
pub open spec fn spec_language_name(t: ProjectType) -> Seq<char> {
    match t {
        ProjectType::Rust => "Rust"@,
        ProjectType::Python => "Python"@,
        ProjectType::Other => "Software"@,
    }
}

/// Get language name for display.
pub fn language_name(t: ProjectType) -> (r: &'static str)
    ensures
        r@ == spec_language_name(t),
{
    match t {
        ProjectType::Rust => "Rust",
        ProjectType::Python => "Python",
        ProjectType::Other => "Software",
    }
}

/// The default test runner invocation for a project type.
pub open spec fn spec_default_test_command(t: ProjectType) -> Seq<char> {
    match t {
        ProjectType::Rust => "cargo test"@,
        ProjectType::Python => "pytest"@,
        ProjectType::Other => "cargo test"@,
    }
}

/// Get default test command for a project type.
pub fn default_test_command(t: ProjectType) -> (r: String)
    ensures
        r@ == spec_default_test_command(t),
{
    match t {
        ProjectType::Rust => String::from_str("cargo test"),
        ProjectType::Python => String::from_str("pytest"),
        ProjectType::Other => String::from_str("cargo test"),
    }
}

/// The code-quality checklist shown to the agent for a project type.
pub open spec fn spec_code_quality_requirements(t: ProjectType) -> Seq<char> {
    match t {
        ProjectType::Rust => "- Write idiomatic Rust code with proper error handling using Result<T, E>\n- Follow Rust naming conventions (snake_case for functions, CamelCase for types)\n- Add documentation comments (///) for public APIs\n- Ensure code compiles without warnings\n- Use appropriate ownership and borrowing patterns\n- Leverage the type system for safety (avoid unwrap() in production code)\n"@,
        ProjectType::Python => "- Write idiomatic Python code following PEP 8 style guidelines\n- Add type hints for function signatures\n- Include docstrings for modules, classes, and functions\n- Use appropriate error handling with try/except blocks\n- Follow Python naming conventions (snake_case for functions, PascalCase for classes)\n- Ensure code passes linting (no unused imports, proper formatting)\n"@,
        ProjectType::Other => "- Write clean, maintainable code\n- Follow language best practices\n"@,
    }
}

/// Get code quality requirements specific to the language.
pub fn get_code_quality_requirements(t: ProjectType) -> (r: String)
    ensures
        r@ == spec_code_quality_requirements(t),
{
    match t {
        ProjectType::Rust => String::from_str(
            "- Write idiomatic Rust code with proper error handling using Result<T, E>\n- Follow Rust naming conventions (snake_case for functions, CamelCase for types)\n- Add documentation comments (///) for public APIs\n- Ensure code compiles without warnings\n- Use appropriate ownership and borrowing patterns\n- Leverage the type system for safety (avoid unwrap() in production code)\n",
        ),
        ProjectType::Python => String::from_str(
            "- Write idiomatic Python code following PEP 8 style guidelines\n- Add type hints for function signatures\n- Include docstrings for modules, classes, and functions\n- Use appropriate error handling with try/except blocks\n- Follow Python naming conventions (snake_case for functions, PascalCase for classes)\n- Ensure code passes linting (no unused imports, proper formatting)\n",
        ),
        ProjectType::Other => String::from_str(
            "- Write clean, maintainable code\n- Follow language best practices\n",
        ),
    }
}

/// The test-quality checklist shown to the agent for a project type.
pub open spec fn spec_test_quality_requirements(t: ProjectType) -> Seq<char> {
    match t {
        ProjectType::Rust => "- Write comprehensive tests covering edge cases:\n* Base cases (e.g., 0, 1 for recursive functions)\n* Boundary values (empty collections, max/min values)\n* Error conditions (invalid inputs)\n- Use descriptive test names that explain what is being tested:\n* Good: test_fibonacci_returns_zero_for_input_zero\n* Bad: test1, test_fib\n- Group related tests in test modules using mod tests { ... }\n- Use #[should_panic] or Result<()> for tests expecting errors\n- Consider property-based testing with proptest for complex logic\n- Test both success and failure paths\n"@,
        ProjectType::Python => "- Write comprehensive tests covering edge cases:\n* Base cases and boundary values\n* Empty inputs, None values\n* Error conditions and exceptions\n- Use descriptive test names following test_<what>_<condition>_<expected> pattern:\n* Good: test_fibonacci_with_zero_returns_zero\n* Bad: test1, test_fib\n- Use pytest fixtures for setup and teardown\n- Use pytest.mark.parametrize for testing multiple inputs\n- Test both positive and negative cases\n- Use pytest.raises for exception testing\n- Include both unit tests and integration tests\n"@,
        ProjectType::Other => "- Write comprehensive tests covering edge cases\n- Use descriptive test names\n- Test both success and failure paths\n"@,
    }
}

/// Get test quality requirements specific to the language.
pub fn get_test_quality_requirements(t: ProjectType) -> (r: String)
    ensures
        r@ == spec_test_quality_requirements(t),
{
    match t {
        ProjectType::Rust => String::from_str(
            "- Write comprehensive tests covering edge cases:\n* Base cases (e.g., 0, 1 for recursive functions)\n* Boundary values (empty collections, max/min values)\n* Error conditions (invalid inputs)\n- Use descriptive test names that explain what is being tested:\n* Good: test_fibonacci_returns_zero_for_input_zero\n* Bad: test1, test_fib\n- Group related tests in test modules using mod tests { ... }\n- Use #[should_panic] or Result<()> for tests expecting errors\n- Consider property-based testing with proptest for complex logic\n- Test both success and failure paths\n",
        ),
        ProjectType::Python => String::from_str(
            "- Write comprehensive tests covering edge cases:\n* Base cases and boundary values\n* Empty inputs, None values\n* Error conditions and exceptions\n- Use descriptive test names following test_<what>_<condition>_<expected> pattern:\n* Good: test_fibonacci_with_zero_returns_zero\n* Bad: test1, test_fib\n- Use pytest fixtures for setup and teardown\n- Use pytest.mark.parametrize for testing multiple inputs\n- Test both positive and negative cases\n- Use pytest.raises for exception testing\n- Include both unit tests and integration tests\n",
        ),
        ProjectType::Other => String::from_str(
            "- Write comprehensive tests covering edge cases\n- Use descriptive test names\n- Test both success and failure paths\n",
        ),
    }
}

/// The placeholder content a scaffolded file starts with, chosen from the
/// explicitly configured extension first, else the file's own name.
pub open spec fn spec_scaffold_content(filename: Seq<char>, ext: Option<Seq<char>>) -> Seq<char> {
    match ext {
        Some(e) => if e == ".py"@ {
            "# TODO: Implement\n"@
        } else {
            "// TODO: Implement\n"@
        },
        None => if spec_ends_with(filename, ".py"@) {
            "# TODO: Implement\n"@
        } else {
            "// TODO: Implement\n"@
        },
    }
}

/// Generate appropriate scaffold content for a file that does not exist yet.
pub fn infer_scaffold_content(filename: &str, explicit_ext: Option<&str>) -> (r: String)
    ensures
        r@ == spec_scaffold_content(filename@, match explicit_ext {
            Some(e) => Some(e@),
            None => None,
        }),
{
    match explicit_ext {
        Some(e) => {
            if str_eq(e, ".py") {
                String::from_str("# TODO: Implement\n")
            } else {
                String::from_str("// TODO: Implement\n")
            }
        },
        None => {
            if ends_with_str(filename, ".py") {
                String::from_str("# TODO: Implement\n")
            } else {
                String::from_str("// TODO: Implement\n")
            }
        },
    }
}

} // verus!
