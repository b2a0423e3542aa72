//! Tenant-scoped bounded collection reads. Cursors supply positions, never authority.
use vstd::prelude::*;

verus! {

#[derive(Debug, Clone, Copy, PartialEq, Eq, Structural)]
pub struct PageLimit(u16);

impl View for PageLimit {
    type V = int;

    closed spec fn view(&self) -> int {
        self.0 as int
    }
}

impl PageLimit {
    #[verifier::type_invariant]
    spec fn in_range(self) -> bool {
        1 <= self.0 <= 100
    }

    pub fn new(limit: u16) -> (r: Option<Self>)
        ensures
            match r {
                Some(p) => 1 <= limit <= 100 && p@ == limit,
                None => !(1 <= limit <= 100),
            },
    {
        if limit < 1 || limit > 100 {
            return None;
        }
        Some(PageLimit(limit))
    }

    /// How many rows to read for a page: one more than it holds, to learn whether
    /// another page follows.
    pub fn rows(&self) -> (r: i64)
        ensures
            r == self@ + 1,
            2 <= r <= 101,
    {
        proof {
            use_type_invariant(self);
        }
        self.0 as i64 + 1
    }
}

/// A place in a list that is ordered by creation, newest first.
#[derive(Debug, Clone, Copy, PartialEq, Eq, Structural)]
pub struct Position {
    pub created_at: i128,
    pub id: u128,
}

#[derive(Debug)]
pub struct Page<T> {
    pub items: Vec<T>,
    pub next: Option<Position>,
}

/// What is cut from what was read: the page's items, and whether another follows.
pub open spec fn page_cut<T>(read: Seq<T>, limit: int, items: Seq<T>, more: bool) -> bool {
    &&& items == (if read.len() > limit {
        read.drop_last()
    } else {
        read
    })
    &&& more <==> read.len() > limit
}

/// Cut what was read down to a page. Where a row beyond the limit was read, the
/// page ends with its last item's position; else nothing follows.
pub fn page<T, F: FnOnce(&T) -> Position>(items: Vec<T>, limit: PageLimit, position: F) -> (r: Page<T>)
    requires
        forall|t: &T| #[trigger] position.requires((t,)),
    ensures
        page_cut(items@, limit@, r.items@, r.next is Some),
        r.next matches Some(p) ==> position.ensures((&r.items@.last(),), p),
{
    proof {
        use_type_invariant(&limit);
    }
    let mut items: Vec<T> = items;
    if items.len() > limit.0 as usize {
        let _ = items.pop();
        let last: Position = position(&items[items.len() - 1]);
        Page { items, next: Some(last) }
    } else {
        Page { items, next: None }
    }
}

/// The length of a page of what was read.
pub open spec fn page_length(read: int, limit: int) -> int {
    if read > limit {
        read - 1
    } else {
        read
    }
}

/// A page never holds more than its limit, and it is full where another follows.
pub proof fn pages_are_bounded(read: int, limit: int)
    requires
        0 <= read <= limit + 1,
        limit >= 1,
    ensures
        page_length(read, limit) <= limit,
        read > limit ==> page_length(read, limit) == limit,
{
}

/// A page of at most one row more than its limit is the first of what was read: all of
/// it where nothing was read beyond the limit, else as many as the limit, and only then
/// does another page follow.
pub proof fn pages_are_the_first_of_what_was_read<T>(read: Seq<T>, limit: int, items: Seq<T>, more: bool)
    requires
        page_cut(read, limit, items, more),
        1 <= limit,
        read.len() <= limit + 1,
    ensures
        items.len() == (if more {
            limit
        } else {
            read.len() as int
        }),
        items == read.take(items.len() as int),
        more <==> read.len() == limit + 1,
{
    assert(items =~= read.take(items.len() as int));
}

} // verus!
