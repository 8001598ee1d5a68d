pub mod approval_location;
pub mod codex_communication_protocol;
pub mod context_location;
pub mod database;
pub mod review_capture;
pub mod review_delivery;
pub mod review_effort;
pub mod review_keystrokes;
pub mod review_requirements;
pub mod review_selection;
pub mod review_solution_properties;
pub mod review_surface;
pub mod user_need;
