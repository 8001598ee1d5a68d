use vstd::prelude::*;
use crate::traits::into_items_and_cursor::IntoItemsAndCursor;
use crate::traits::set_next_cursor::SetNextCursor;

verus! {

#[derive(Debug)]
pub enum PageStreamError<P, E> {
    /// failed to fetch a page
    FetchPageFailed { source: E, params: Box<P> },
}

/// The request for the page after `page`: `params` with the page's cursor, or `None` when the
/// page has no cursor.
pub open spec fn spec_next_params<P: SetNextCursor, R: IntoItemsAndCursor<Cursor = P::Cursor>>(params: P, page: R) -> Option<P> {
    match page.spec_next_cursor() {
        Some(cursor) => Some(params.spec_with_next_cursor(cursor)),
        None => None,
    }
}

/// One step of a page stream: `params` is the request whose page was fetched, `fetched` what the
/// fetch returned. A fetched page yields its items, unflattened, and the request for the next page,
/// which is `None` (the stream ends) when the page carries no cursor, even when its items are empty.
/// A failed fetch yields the error with the request that failed; the stream stops after it.
pub fn page_stream_step<P, R, E>(params: P, fetched: Result<R, E>) -> (step: Result<(R::Items, Option<P>), PageStreamError<P, E>>) where
    P: SetNextCursor,
    R: IntoItemsAndCursor<Cursor = P::Cursor>,

    ensures
        fetched matches Err(error) ==> step matches Err(PageStreamError::FetchPageFailed { source, params: failed })
            && source == error && *failed == params,
        fetched matches Ok(page) ==> step matches Ok((items, next_params))
            && items == page.spec_items() && next_params == spec_next_params(params, page),
{
    match fetched {
        Err(source) => Err(PageStreamError::FetchPageFailed { source, params: Box::new(params) }),
        Ok(page) => {
            let (items, next_cursor) = page.into_items_and_cursor();
            let next_params = match next_cursor {
                Some(cursor) => {
                    let mut params = params;
                    params.set_next_cursor(cursor);
                    Some(params)
                },
                None => None,
            };
            Ok((items, next_params))
        },
    }
}

} // verus!
