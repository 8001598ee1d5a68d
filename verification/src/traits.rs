pub mod into_items_and_cursor;
pub mod set_next_cursor;
