use crs::facts::{
    codex_app_server_default_endpoint, codex_sessions_are_on_sandbox_volume, codex_sessions_must_be_accessed_via_wyrc,
    container_startup_may_write_to_stdout, crs_commands_must_run_in_sandbox, crs_context_is_shell_local,
    git_commits_store_files_not_hunks, host_environment_is_automatically_forwarded_to_sandbox, interdependent_rust_item_examples,
    meaningful_non_item_rust_lines, programs_may_output_content_with_escape_sequences, rust_analyzer_syntax_tree_retains_all_comments,
    rust_files_may_contain_meaningful_non_item_lines, rust_items_may_be_interdependent,
};

#[test]
fn boolean_facts() {
    assert!(programs_may_output_content_with_escape_sequences());
    assert!(rust_items_may_be_interdependent());
    assert!(rust_files_may_contain_meaningful_non_item_lines());
    assert!(rust_analyzer_syntax_tree_retains_all_comments());
    assert!(git_commits_store_files_not_hunks());
    assert!(codex_sessions_are_on_sandbox_volume());
    assert!(!codex_sessions_must_be_accessed_via_wyrc());
    assert!(crs_commands_must_run_in_sandbox());
    assert!(crs_context_is_shell_local());
    assert!(!host_environment_is_automatically_forwarded_to_sandbox());
    assert!(container_startup_may_write_to_stdout());
}

#[test]
fn default_endpoint_is_unix_socket_in_codex_home() {
    assert_eq!(codex_app_server_default_endpoint(), "unix://");
}

#[test]
fn interdependent_example_is_the_parity_fixture() {
    let examples = interdependent_rust_item_examples();
    assert_eq!(examples.len(), 1);
    let example = examples[0];
    assert!(example.starts_with("/// Returns whether `value` is even.\n"));
    assert!(example.contains("pub fn is_even(value: u8) -> bool {\n    value.checked_sub(1).is_none_or(is_odd)\n}"));
    assert!(example.contains("pub fn is_odd(value: u8) -> bool {\n    value.checked_sub(1).is_some_and(is_even)\n}"));
    assert!(example.ends_with("}\n"));
    assert_eq!(example.lines().count(), 9);
}

#[test]
fn meaningful_non_item_lines() {
    assert_eq!(meaningful_non_item_rust_lines(), &["#![no_std]", "/// Doc comment", "// Regular single-line comment"]);
}

#[test]
fn markdown_parser_enables_extensions() {
    let events: Vec<_> = crs::functions::markdown_parser_new::markdown_parser_new("| a |\n|---|\n| b |\n\n~~gone~~\n").collect();
    assert!(events.iter().any(|event| matches!(event, pulldown_cmark::Event::Start(pulldown_cmark::Tag::Table(_)))));
    assert!(events.iter().any(|event| matches!(event, pulldown_cmark::Event::Start(pulldown_cmark::Tag::Strikethrough))));
}
