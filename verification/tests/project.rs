use evolve::project::{
    default_test_command, get_code_quality_requirements, get_test_quality_requirements,
    infer_project_type, infer_scaffold_content, language_name, parse_project_type, ProjectType,
};

#[test]
fn inference_takes_the_first_recognized_extension() {
    assert_eq!(
        infer_project_type(&vec![String::from("src/lib.rs")]),
        Some(ProjectType::Rust)
    );
    assert_eq!(
        infer_project_type(&vec![String::from("README.md"), String::from("app.py")]),
        Some(ProjectType::Python)
    );
    assert_eq!(
        infer_project_type(&vec![String::from("app.py"), String::from("src/lib.rs")]),
        Some(ProjectType::Python)
    );
    assert_eq!(infer_project_type(&vec![String::from("main.go")]), None);
    assert_eq!(infer_project_type(&Vec::new()), None);
}

#[test]
fn configured_tags_parse_to_known_types() {
    assert_eq!(parse_project_type("rust"), ProjectType::Rust);
    assert_eq!(parse_project_type("python"), ProjectType::Python);
    assert_eq!(parse_project_type("javascript"), ProjectType::Other);
}

#[test]
fn language_names_for_display() {
    assert_eq!(language_name(ProjectType::Rust), "Rust");
    assert_eq!(language_name(ProjectType::Python), "Python");
    assert_eq!(language_name(ProjectType::Other), "Software");
}

#[test]
fn default_test_commands_per_type() {
    assert_eq!(default_test_command(ProjectType::Rust), "cargo test");
    assert_eq!(default_test_command(ProjectType::Python), "pytest");
    assert_eq!(default_test_command(ProjectType::Other), "cargo test");
}

#[test]
fn scaffold_content_follows_extension() {
    assert_eq!(infer_scaffold_content("src/lib.rs", None), "// TODO: Implement\n");
    assert_eq!(infer_scaffold_content("app.py", None), "# TODO: Implement\n");
    assert_eq!(infer_scaffold_content("notes.txt", None), "// TODO: Implement\n");
    assert_eq!(infer_scaffold_content("anything", Some(".py")), "# TODO: Implement\n");
    assert_eq!(infer_scaffold_content("anything", Some(".rs")), "// TODO: Implement\n");
    assert_eq!(infer_scaffold_content("app.py", Some(".rs")), "// TODO: Implement\n");
}

#[test]
fn quality_checklists_are_language_specific() {
    let rust_code = get_code_quality_requirements(ProjectType::Rust);
    assert!(rust_code.starts_with(
        "- Write idiomatic Rust code with proper error handling using Result<T, E>\n"
    ));
    assert!(rust_code.contains("avoid unwrap() in production code"));
    let py_code = get_code_quality_requirements(ProjectType::Python);
    assert!(py_code.starts_with(
        "- Write idiomatic Python code following PEP 8 style guidelines\n"
    ));
    let other_code = get_code_quality_requirements(ProjectType::Other);
    assert_eq!(
        other_code,
        "- Write clean, maintainable code\n- Follow language best practices\n"
    );
    let rust_tests = get_test_quality_requirements(ProjectType::Rust);
    assert!(rust_tests.contains("test_fibonacci_returns_zero_for_input_zero"));
    let py_tests = get_test_quality_requirements(ProjectType::Python);
    assert!(py_tests.contains("pytest.raises"));
    let other_tests = get_test_quality_requirements(ProjectType::Other);
    assert_eq!(
        other_tests,
        "- Write comprehensive tests covering edge cases\n- Use descriptive test names\n- Test both success and failure paths\n"
    );
}
