use evolve::mutate::mutation_command;

#[test]
fn agent_invocation_scopes_the_edit_surface_to_the_file_list() {
    let cmd = mutation_command(
        &String::from("the built prompt"),
        &vec![String::from("src/lib.rs"), String::from("tests/basic.rs")],
        &String::from("big-model"),
        &String::from("small-model"),
    );
    assert_eq!(cmd.program, "aider");
    assert_eq!(cmd.args, vec![
        String::from("--model"),
        String::from("big-model"),
        String::from("--editor-model"),
        String::from("small-model"),
        String::from("--message"),
        String::from("the built prompt"),
        String::from("--yes"),
        String::from("src/lib.rs"),
        String::from("tests/basic.rs"),
    ]);
}
