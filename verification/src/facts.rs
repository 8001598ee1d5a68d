use vstd::prelude::*;

verus! {

/// The source of a Rust file whose two functions call each other.
pub const INTERDEPENDENT_ITEMS_EXAMPLE: &'static str = "/// Returns whether `value` is even.\npub fn is_even(value: u8) -> bool {\n    value.checked_sub(1).is_none_or(is_odd)\n}\n\n/// Returns whether `value` is odd.\npub fn is_odd(value: u8) -> bool {\n    value.checked_sub(1).is_some_and(is_even)\n}\n";

/// An inner attribute: a line of a Rust file that is not an item but changes its meaning.
pub const NO_STD_ATTRIBUTE_LINE: &'static str = "#![no_std]";

/// A doc comment line: it belongs to the item below it.
pub const DOC_COMMENT_LINE: &'static str = "/// Doc comment";

/// A regular comment line.
pub const REGULAR_COMMENT_LINE: &'static str = "// Regular single-line comment";

/// The examples of interdependent Rust items, as text.
pub open spec fn spec_interdependent_rust_item_examples() -> Seq<Seq<char>> {
    seq![INTERDEPENDENT_ITEMS_EXAMPLE@]
}

/// The meaningful lines of a Rust file that are not items, as text.
pub open spec fn spec_meaningful_non_item_rust_lines() -> Seq<Seq<char>> {
    seq![NO_STD_ATTRIBUTE_LINE@, DOC_COMMENT_LINE@, REGULAR_COMMENT_LINE@]
}

/// The text of each string in a slice of strings.
pub open spec fn texts(lines: Seq<&str>) -> Seq<Seq<char>> {
    lines.map_values(|line: &str| line@)
}

pub fn programs_may_output_content_with_escape_sequences() -> (may: bool)
    ensures
        may,
{
    true
}

/// Rust items may depend on each other: witnessed by the examples.
pub fn rust_items_may_be_interdependent() -> (may: bool)
    ensures
        may == (spec_interdependent_rust_item_examples().len() > 0),
        may,
{
    let examples = interdependent_rust_item_examples();
    assert(texts(examples@).len() == examples@.len());
    examples.len() != 0
}

pub fn interdependent_rust_item_examples() -> (examples: &'static [&'static str])
    ensures
        texts(examples@) == spec_interdependent_rust_item_examples(),
{
    let examples: &'static [&'static str] = &[INTERDEPENDENT_ITEMS_EXAMPLE];
    assert(texts(examples@) =~= spec_interdependent_rust_item_examples());
    examples
}

/// Rust files may hold meaningful lines that are not items: witnessed by the examples.
pub fn rust_files_may_contain_meaningful_non_item_lines() -> (may: bool)
    ensures
        may == (spec_meaningful_non_item_rust_lines().len() > 0),
        may,
{
    let lines = meaningful_non_item_rust_lines();
    assert(texts(lines@).len() == lines@.len());
    lines.len() != 0
}

pub fn meaningful_non_item_rust_lines() -> (lines: &'static [&'static str])
    ensures
        texts(lines@) == spec_meaningful_non_item_rust_lines(),
{
    let lines: &'static [&'static str] = &[NO_STD_ATTRIBUTE_LINE, DOC_COMMENT_LINE, REGULAR_COMMENT_LINE];
    assert(texts(lines@) =~= spec_meaningful_non_item_rust_lines());
    lines
}

pub fn rust_analyzer_syntax_tree_retains_all_comments() -> (retains: bool)
    ensures
        retains,
{
    true
}

pub fn git_commits_store_files_not_hunks() -> (stores_files: bool)
    ensures
        stores_files,
{
    true
}

/// Local and SSH sandbox shells access the same Codex session storage.
pub fn codex_sessions_are_on_sandbox_volume() -> (on_volume: bool)
    ensures
        on_volume,
{
    true
}

/// Resolves the control socket in the sandbox's CODEX_HOME without host socket sharing.
pub fn codex_app_server_default_endpoint() -> (endpoint: &'static str)
    ensures
        endpoint@ == "unix://"@,
{
    "unix://"
}

/// CRS connects to the app-server directly inside the sandbox.
pub fn codex_sessions_must_be_accessed_via_wyrc() -> (must: bool)
    ensures
        !must,
{
    false
}

/// Enter a persistent sandbox shell with wyr; stateful helpers require SANDBOX=1 before creating files or running commands.
pub fn crs_commands_must_run_in_sandbox() -> (must: bool)
    ensures
        must,
{
    true
}

/// Helpers export CRS variables in the invoking shell; child processes cannot update their parent's environment.
pub fn crs_context_is_shell_local() -> (local: bool)
    ensures
        local,
{
    true
}

/// Docker exec uses the container's environment unless the caller explicitly forwards variables.
pub fn host_environment_is_automatically_forwarded_to_sandbox() -> (forwarded: bool)
    ensures
        !forwarded,
{
    false
}

/// Start the sandbox before running CRS so lifecycle messages stay outside command output.
pub fn container_startup_may_write_to_stdout() -> (may: bool)
    ensures
        may,
{
    true
}

} // verus!
