pub mod item_window;
pub mod codex_command;
pub mod filter_thread_codex_command;
pub mod render_agent_message_get_thread_codex_command;
pub mod render_final_answer_thread_codex_command;
