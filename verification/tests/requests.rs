use crs::functions::list_items_params_all_reverse::list_items_params_all_reverse;
use crs::functions::list_threads_params_all_reverse::list_threads_params_all_reverse;
use crs::functions::page_stream::{page_stream_step, PageStreamError};
use crs::protocol::{SortDirection, ThreadListCwdFilter, ThreadSortKey, ThreadSourceKind};
use crs::traits::into_items_and_cursor::{IntoItemsAndCursor, Page};
use crs::traits::set_next_cursor::SetNextCursor;

#[test]
fn thread_listing_request() {
    let params = list_threads_params_all_reverse(Vec::new(), Some("bug".to_string()));
    assert_eq!(params.limit, Some(u32::MAX));
    assert_eq!(params.cursor, None);
    assert_eq!(params.sort_key, Some(ThreadSortKey::CreatedAt));
    assert_eq!(params.sort_direction, Some(SortDirection::Desc));
    assert_eq!(
        params.source_kinds,
        Some(vec![
            ThreadSourceKind::Cli,
            ThreadSourceKind::VsCode,
            ThreadSourceKind::Exec,
            ThreadSourceKind::AppServer,
            ThreadSourceKind::SubAgent,
            ThreadSourceKind::Unknown
        ])
    );
    assert_eq!(params.model_providers, Some(Vec::new()));
    assert!(params.cwd.is_none());
    assert_eq!(params.archived, Some(false));
    assert_eq!(params.search_term.as_deref(), Some("bug"));
    assert!(params.use_state_db_only);

    let params = list_threads_params_all_reverse(vec!["/a".to_string(), "/b".to_string()], None);
    match params.cwd {
        Some(ThreadListCwdFilter::Many(filters)) => assert_eq!(filters, vec!["/a".to_string(), "/b".to_string()]),
        None => panic!("the working directories must restrict the listing"),
    }
    assert_eq!(params.search_term, None);
}

#[test]
fn item_listing_request() {
    let params = list_items_params_all_reverse("0195-thread".to_string());
    assert_eq!(params.limit, Some(u32::MAX));
    assert_eq!(params.cursor, None);
    assert_eq!(params.sort_direction, Some(SortDirection::Desc));
    assert_eq!(params.thread_id, "0195-thread");
}

#[test]
fn setting_the_cursor_keeps_other_fields() {
    let mut params = list_threads_params_all_reverse(vec!["/a".to_string()], None);
    params.set_next_cursor("c1".to_string());
    assert_eq!(params.cursor.as_deref(), Some("c1"));
    assert_eq!(params.limit, Some(u32::MAX));
    assert!(params.cwd.is_some());
    params.set_next_cursor("c2".to_string());
    assert_eq!(params.cursor.as_deref(), Some("c2"));

    let mut items = list_items_params_all_reverse("t".to_string());
    items.set_next_cursor("next".to_string());
    assert_eq!(items.cursor.as_deref(), Some("next"));
    assert_eq!(items.thread_id, "t");
}

#[test]
fn page_splits_into_items_and_cursor() {
    let page = Page { items: vec![1, 2], next_cursor: Some("n".to_string()) };
    assert_eq!(page.into_items_and_cursor(), (vec![1, 2], Some("n".to_string())));
}

#[test]
fn page_stream_step_follows_the_cursor() {
    let params = list_items_params_all_reverse("t".to_string());
    let fetched: Result<Page<u8>, String> = Ok(Page { items: vec![3, 4], next_cursor: Some("p2".to_string()) });
    match page_stream_step(params, fetched) {
        Ok((items, Some(next))) => {
            assert_eq!(items, vec![3, 4]);
            assert_eq!(next.cursor.as_deref(), Some("p2"));
            assert_eq!(next.thread_id, "t");
        }
        _ => panic!("a page with a cursor continues the stream"),
    }
}

#[test]
fn last_page_ends_the_stream_even_when_empty() {
    let params = list_items_params_all_reverse("t".to_string());
    let fetched: Result<Page<u8>, String> = Ok(Page { items: Vec::new(), next_cursor: None });
    assert!(matches!(page_stream_step(params, fetched), Ok((ref items, None)) if items.is_empty()));
}

#[test]
fn failed_fetch_keeps_the_request() {
    let mut params = list_items_params_all_reverse("t".to_string());
    params.set_next_cursor("p3".to_string());
    let fetched: Result<Page<u8>, String> = Err("offline".to_string());
    match page_stream_step(params, fetched) {
        Err(PageStreamError::FetchPageFailed { source, params }) => {
            assert_eq!(source, "offline");
            assert_eq!(params.cursor.as_deref(), Some("p3"));
        }
        Ok(_) => panic!("a failed fetch is an error"),
    }
}
