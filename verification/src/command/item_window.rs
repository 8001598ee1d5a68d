use vstd::prelude::*;

verus! {

/// Selects a window of a stream of items: it skips the first `offset` items, then lets through
/// the next `limit` items and asks for no more.
#[derive(Clone, Copy, Debug, PartialEq, Eq, Structural)]
pub struct ItemWindow {
    /// Items still to skip.
    pub skip_remaining: usize,
    /// Items still to let through.
    pub take_remaining: usize,
}

/// The state of a window as plain numbers: items still to skip, items still to let through.
pub struct WindowState {
    pub skip: nat,
    pub take: nat,
}

impl ItemWindow {
    pub open spec fn state(self) -> WindowState {
        WindowState { skip: self.skip_remaining as nat, take: self.take_remaining as nat }
    }
}

/// Whether the window lets the next item through.
pub open spec fn spec_lets_through(state: WindowState) -> bool {
    state.skip == 0
}

/// The window after one more item.
pub open spec fn spec_after_item(state: WindowState) -> WindowState {
    if state.skip > 0 {
        WindowState { skip: (state.skip - 1) as nat, take: state.take }
    } else {
        WindowState { skip: 0, take: (state.take - 1) as nat }
    }
}

/// What a window lets through of `items`, fed one by one while it is open.
pub open spec fn spec_run_window<T>(state: WindowState, items: Seq<T>) -> Seq<T>
    decreases items.len(),
{
    if items.len() == 0 || state.take == 0 {
        Seq::empty()
    } else {
        let rest = spec_run_window(spec_after_item(state), items.drop_first());
        if spec_lets_through(state) {
            seq![items[0]] + rest
        } else {
            rest
        }
    }
}

pub open spec fn min_nat(a: nat, b: nat) -> nat {
    if a <= b {
        a
    } else {
        b
    }
}

impl ItemWindow {
    /// A window that skips `offset` items and then lets `limit` items through.
    pub fn new(offset: usize, limit: usize) -> (window: Self)
        ensures
            window.skip_remaining == offset,
            window.take_remaining == limit,
    {
        ItemWindow { skip_remaining: offset, take_remaining: limit }
    }

    /// Whether the window wants another item: it has not yet let `limit` items through.
    pub fn is_open(&self) -> (open: bool)
        ensures
            open == (self.take_remaining > 0),
    {
        self.take_remaining > 0
    }

    /// Feeds the next item to an open window; returns whether the item is let through.
    pub fn accept_next(&mut self) -> (let_through: bool)
        requires
            old(self).take_remaining > 0,
        ensures
            let_through == spec_lets_through(old(self).state()),
            final(self).state() == spec_after_item(old(self).state()),
    {
        if self.skip_remaining > 0 {
            self.skip_remaining = self.skip_remaining - 1;
            false
        } else {
            self.take_remaining = self.take_remaining - 1;
            true
        }
    }
}

/// A window fed a sequence of items lets through exactly the items at positions
/// `offset .. offset + limit` (as far as the sequence reaches), in their order.
pub proof fn lemma_window_selects_range<T>(offset: nat, limit: nat, items: Seq<T>)
    ensures
        spec_run_window(WindowState { skip: offset, take: limit }, items)
            == items.subrange(min_nat(offset, items.len()) as int, min_nat(offset + limit, items.len()) as int),
    decreases items.len(),
{
    let state = WindowState { skip: offset, take: limit };
    let start = min_nat(offset, items.len()) as int;
    let end = min_nat(offset + limit, items.len()) as int;
    if items.len() == 0 || limit == 0 {
        assert(items.subrange(start, end) =~= Seq::<T>::empty());
    } else {
        let rest = items.drop_first();
        if offset > 0 {
            lemma_window_selects_range((offset - 1) as nat, limit, rest);
            assert(rest.subrange(
                min_nat((offset - 1) as nat, rest.len()) as int,
                min_nat((offset - 1 + limit) as nat, rest.len()) as int,
            ) =~= items.subrange(start, end));
        } else {
            lemma_window_selects_range(0, (limit - 1) as nat, rest);
            assert(seq![items[0]] + rest.subrange(
                min_nat(0, rest.len()) as int,
                min_nat((limit - 1) as nat, rest.len()) as int,
            ) =~= items.subrange(start, end));
        }
    }
}

} // verus!
