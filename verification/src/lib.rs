//! Decision rules and catalog facts for reviewing agent diffs with few keystrokes.
pub mod interdependent;
pub mod facts;
pub mod types;
pub mod functions;
pub mod text;
pub mod protocol;
pub mod traits;
pub mod command;
pub mod ids;
