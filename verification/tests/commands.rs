use crs::command::codex_command::{settle_session, SessionError};
use crs::command::filter_thread_codex_command::{filter_page_limit, FilterThreadCodexCommand};
use crs::command::item_window::ItemWindow;
use crs::command::render_agent_message_get_thread_codex_command::{agent_message_text, RenderAgentMessageGetThreadCodexCommand};
use crs::command::render_final_answer_thread_codex_command::final_answer_text;
use crs::functions::list_threads_params_all_reverse::list_threads_params_all_reverse;
use crs::functions::editor_var_os::{select_editor, DEFAULT_EDITOR};
use crs::protocol::ThreadItemSummary;

fn run_window(mut window: ItemWindow, items: &[u32]) -> (Vec<u32>, usize) {
    let mut selected = Vec::new();
    let mut pulled = 0;
    for item in items {
        if !window.is_open() {
            break;
        }
        pulled += 1;
        if window.accept_next() {
            selected.push(*item);
        }
    }
    (selected, pulled)
}

#[test]
fn window_selects_offset_and_limit() {
    let items: Vec<u32> = (0..10).collect();
    assert_eq!(run_window(ItemWindow::new(3, 4), &items), (vec![3, 4, 5, 6], 7));
    assert_eq!(run_window(ItemWindow::new(0, 2), &items), (vec![0, 1], 2));
    assert_eq!(run_window(ItemWindow::new(8, 5), &items), (vec![8, 9], 10));
    assert_eq!(run_window(ItemWindow::new(12, 5), &items), (vec![], 10));
    assert_eq!(run_window(ItemWindow::new(2, 0), &items), (vec![], 0));
}

#[test]
fn page_limit_covers_skipped_and_emitted_threads() {
    assert_eq!(filter_page_limit(0, 10), 10);
    assert_eq!(filter_page_limit(5, 10), 15);
    assert_eq!(filter_page_limit(u32::MAX as usize, 1), u32::MAX);
    assert_eq!(filter_page_limit(usize::MAX, 1), u32::MAX);
}

#[test]
fn filter_plan() {
    let command = FilterThreadCodexCommand { search_term: Some("x".to_string()), cwd_filters: Vec::new(), offset: 2, limit: 3 };
    let (params, window) = command.plan();
    assert_eq!(params.limit, Some(5));
    assert_eq!(params.search_term.as_deref(), Some("x"));
    assert!(params.cwd.is_none());
    assert_eq!(window, ItemWindow::new(2, 3));
    let expected = list_threads_params_all_reverse(Vec::new(), Some("x".to_string()));
    assert_eq!(params.source_kinds, expected.source_kinds);
    assert_eq!(params.model_providers, Some(Vec::new()));
    assert!(params.use_state_db_only);
    assert_eq!(params.sort_key, expected.sort_key);
    assert_eq!(params.sort_direction, expected.sort_direction);
    assert_eq!(params.archived, Some(false));
    assert_eq!(params.cursor, None);
    let (params, _) = FilterThreadCodexCommand { search_term: None, cwd_filters: Vec::new(), offset: usize::MAX, limit: 1 }.plan();
    assert_eq!(params.limit, Some(u32::MAX));
}

#[test]
fn agent_message_plan_and_selection() {
    let (params, window) = RenderAgentMessageGetThreadCodexCommand { index: 1 }.plan("thread".to_string());
    assert_eq!(params.thread_id, "thread");
    assert_eq!(window, ItemWindow::new(1, 1));
    let items = vec![
        ThreadItemSummary::AgentMessage { text: "newest".to_string(), final_answer: true },
        ThreadItemSummary::Other,
        ThreadItemSummary::AgentMessage { text: "older".to_string(), final_answer: false },
        ThreadItemSummary::AgentMessage { text: "oldest".to_string(), final_answer: false },
    ];
    let mut window = window;
    let mut rendered = None;
    for item in items {
        if !window.is_open() {
            break;
        }
        if let Some(text) = agent_message_text(item) {
            if window.accept_next() {
                rendered = Some(text);
            }
        }
    }
    assert_eq!(rendered.as_deref(), Some("older"));
}

#[test]
fn final_answer_only_from_final_agent_message() {
    assert_eq!(
        final_answer_text(ThreadItemSummary::AgentMessage { text: "done".to_string(), final_answer: true }).as_deref(),
        Some("done")
    );
    assert_eq!(final_answer_text(ThreadItemSummary::AgentMessage { text: "thinking".to_string(), final_answer: false }), None);
    assert_eq!(final_answer_text(ThreadItemSummary::Other), None);
    assert_eq!(agent_message_text(ThreadItemSummary::Other), None);
}

#[test]
fn session_outcome_precedence() {
    let both: Result<u8, SessionError<&str, &str>> = settle_session(Err("run"), Err("shutdown"));
    assert!(matches!(both, Err(SessionError::CommandFailed { source: "run", shutdown_result: Err("shutdown") })));
    let shutdown: Result<u8, SessionError<&str, &str>> = settle_session(Ok(3), Err("shutdown"));
    assert!(matches!(shutdown, Err(SessionError::ShutdownFailed { source: "shutdown" })));
    let fine: Result<u8, SessionError<&str, &str>> = settle_session(Ok(3), Ok(()));
    assert!(matches!(fine, Ok(3)));
}

#[test]
fn editor_precedence() {
    let s = |v: &str| Some(v.to_string());
    assert_eq!(select_editor(s("code"), s("nvim"), s("nano"), DEFAULT_EDITOR.to_string()), "code");
    assert_eq!(select_editor(None, s("nvim"), s("nano"), DEFAULT_EDITOR.to_string()), "nvim");
    assert_eq!(select_editor(None, None, s("nano"), DEFAULT_EDITOR.to_string()), "nano");
    assert_eq!(select_editor(None, None, None, DEFAULT_EDITOR.to_string()), "vi");
}
