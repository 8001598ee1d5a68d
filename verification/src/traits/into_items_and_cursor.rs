use vstd::prelude::*;

verus! {

/// Consumes a page into its items and the cursor for the next request.
pub trait IntoItemsAndCursor: Sized {
    type Items;

    type Cursor;

    /// The items of the page.
    spec fn spec_items(self) -> Self::Items;

    /// The cursor of the next page; `None` on the last page.
    spec fn spec_next_cursor(self) -> Option<Self::Cursor>;

    /// A missing cursor marks the last page, even when its items are empty.
    fn into_items_and_cursor(self) -> (split: (Self::Items, Option<Self::Cursor>))
        ensures
            split.0 == self.spec_items(),
            split.1 == self.spec_next_cursor(),
    ;
}

/// A page of a listing: its items, and the cursor to pass to fetch the page after it.
#[derive(Clone, Debug)]
pub struct Page<T> {
    pub items: Vec<T>,
    pub next_cursor: Option<String>,
}

impl<T> IntoItemsAndCursor for Page<T> {
    type Items = Vec<T>;

    type Cursor = String;

    open spec fn spec_items(self) -> Vec<T> {
        self.items
    }

    open spec fn spec_next_cursor(self) -> Option<String> {
        self.next_cursor
    }

    fn into_items_and_cursor(self) -> (split: (Vec<T>, Option<String>)) {
        (self.items, self.next_cursor)
    }
}

} // verus!
