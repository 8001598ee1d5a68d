use crs::functions::thread_store_max_page_size::thread_store_max_page_size;

#[test]
fn must_iter_write_as_markdown() {
    let _parts = ["foo", "bar"];
    let _output = String::new();
}

#[test]
fn thread_store_page_size_leaves_room_for_one_more_row() {
    let size = thread_store_max_page_size();
    assert_eq!(size as u128, (i64::MAX - 1) as u128);
    assert!(size.checked_add(1).is_some());
    assert!(i64::try_from(size + 1).is_ok());
}
