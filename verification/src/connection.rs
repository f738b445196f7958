//! Relay-style cursor pagination over a list of characters.
//!
//! A cursor is the position of a character in the list. `after` and `before`
//! cut a window out of the list, `first` or `last` then keep one end of the
//! window, and the page reports whether anything lies outside of it.

use vstd::prelude::*;
use crate::character::NarutoChar;

verus! {

/// One entry of a page: a node and the cursor that leads back to it.
pub struct Edge<T> {
    pub cursor: usize,
    pub node: T,
}

/// One page of a list.
pub struct Connection<T> {
    pub has_previous_page: bool,
    pub has_next_page: bool,
    pub edges: Vec<Edge<T>>,
}

/// The shape of a page over a list: which stretch of the list it shows and
/// what it reports about the rest.
pub ghost struct Page {
    /// Position of the first character shown.
    pub start: int,
    /// Number of characters shown.
    pub len: int,
    pub has_previous_page: bool,
    pub has_next_page: bool,
}

/// Whether `after` and `before` cut a window out of a list of `total`
/// characters: `after` names a character of the list, `before` names one
/// beyond the first or the end of the list, and `after` comes before `before`.
pub open spec fn cursors_in_range(after: Option<usize>, before: Option<usize>, total: int) -> bool {
    &&& after matches Some(a) ==> a < total
    &&& before matches Some(b) ==> 0 < b <= total
    &&& after matches Some(a) ==> (before matches Some(b) ==> a < b)
}

/// Where the window begins: just behind `after`, or at the head of the list.
pub open spec fn window_start(after: Option<usize>) -> int {
    match after {
        Some(a) => a + 1,
        None => 0,
    }
}

/// Where the window ends (exclusive): at `before`, or at the end of the list.
pub open spec fn window_end(before: Option<usize>, total: int) -> int {
    match before {
        Some(b) => b as int,
        None => total,
    }
}

/// The smaller of a requested count and the room there is.
pub open spec fn clamp(wanted: usize, room: int) -> int {
    if wanted <= room {
        wanted as int
    } else {
        room
    }
}

/// The page that the four arguments select from a list of `total` characters.
///
/// Cursors that cut no window give the empty page with both flags down.
/// Otherwise `first` keeps the head of the window and `last`, looked at only
/// without `first`, keeps its tail; a count larger than the window is clamped
/// to it. `has_previous_page` tells whether a character of the list lies
/// before the page, and `has_next_page` whether one lies behind it.
pub open spec fn page_of(
    after: Option<usize>,
    before: Option<usize>,
    first: Option<usize>,
    last: Option<usize>,
    total: int,
) -> Page {
    let start = window_start(after);
    let end = window_end(before, total);
    if !cursors_in_range(after, before, total) {
        Page { start: 0, len: 0, has_previous_page: false, has_next_page: false }
    } else if let Some(n) = first {
        let kept = clamp(n, end - start);
        Page { start, len: kept, has_previous_page: start > 0, has_next_page: start + kept < total }
    } else if let Some(n) = last {
        let kept = clamp(n, end - start);
        Page {
            start: end - kept,
            len: kept,
            has_previous_page: end - kept > 0,
            has_next_page: end < total,
        }
    } else {
        Page { start, len: end - start, has_previous_page: start > 0, has_next_page: end < total }
    }
}

/// A page shows a stretch of its list: it begins and ends inside the list,
/// and it holds no more characters than `first`, or without `first` than
/// `last`, allows.
pub proof fn page_stays_in_list(
    after: Option<usize>,
    before: Option<usize>,
    first: Option<usize>,
    last: Option<usize>,
    total: int,
)
    requires
        0 <= total,
    ensures
        ({
            let page = page_of(after, before, first, last, total);
            &&& 0 <= page.start
            &&& 0 <= page.len
            &&& page.start + page.len <= total
            &&& first matches Some(n) ==> page.len <= n
            &&& first is None ==> (last matches Some(n) ==> page.len <= n)
        }),
{
}

/// A page that shows anything lies strictly behind `after` and strictly
/// before `before`.
pub proof fn page_lies_between_cursors(
    after: Option<usize>,
    before: Option<usize>,
    first: Option<usize>,
    last: Option<usize>,
    total: int,
)
    requires
        0 <= total,
    ensures
        ({
            let page = page_of(after, before, first, last, total);
            &&& after matches Some(a) ==> (page.len > 0 ==> a < page.start)
            &&& before matches Some(b) ==> (page.len > 0 ==> page.start + page.len <= b)
        }),
{
}

/// Cursors that cut no window out of the list give the empty page, with
/// nothing reported before or behind it.
pub proof fn page_is_empty_out_of_range(
    after: Option<usize>,
    before: Option<usize>,
    first: Option<usize>,
    last: Option<usize>,
    total: int,
)
    requires
        !cursors_in_range(after, before, total),
    ensures
        ({
            let page = page_of(after, before, first, last, total);
            &&& page.len == 0
            &&& !page.has_previous_page
            &&& !page.has_next_page
        }),
{
}

/// Whatever selected the page, as long as the cursors cut a window: there is
/// a previous page exactly if a character lies before the first one shown,
/// and a next page exactly if a character lies behind the last one shown.
pub proof fn page_flags_tell_what_lies_outside(
    after: Option<usize>,
    before: Option<usize>,
    first: Option<usize>,
    last: Option<usize>,
    total: int,
)
    requires
        cursors_in_range(after, before, total),
    ensures
        ({
            let page = page_of(after, before, first, last, total);
            &&& page.has_previous_page <==> 0 < page.start
            &&& page.has_next_page <==> page.start + page.len < total
        }),
{
}

/// Builds the page that `after`, `before`, `first` and `last` select from
/// `characters`, turning each character shown into a node with `map_to`.
///
/// The edges are the characters of the page in list order, each under its
/// position in `characters` as cursor. A page that shows anything has a
/// previous page exactly if a character lies before its first edge, and a
/// next page exactly if one lies behind its last.
pub fn query_characters<'a, F, T>(
    after: Option<usize>,
    before: Option<usize>,
    first: Option<usize>,
    last: Option<usize>,
    characters: &[&'a NarutoChar],
    map_to: F,
) -> (connection: Connection<T>) where F: Fn(&'a NarutoChar) -> T
    requires
        forall|i: int| 0 <= i < characters@.len() ==> map_to.requires((#[trigger] characters@[i],)),
    ensures
        ({
            let page = page_of(after, before, first, last, characters@.len() as int);
            &&& connection.has_previous_page == page.has_previous_page
            &&& connection.has_next_page == page.has_next_page
            &&& connection.edges@.len() == page.len
            &&& forall|i: int|
                0 <= i < page.len ==> (#[trigger] connection.edges@[i]).cursor == page.start + i
                    && map_to.ensures((characters@[page.start + i],), connection.edges@[i].node)
        }),
        connection.edges@.len() > 0 ==> {
            &&& connection.has_previous_page <==> connection.edges@[0].cursor > 0
            &&& connection.has_next_page <==> connection.edges@[connection.edges@.len() - 1].cursor
                + 1 < characters@.len()
        },
{
    let total = characters.len();
    let mut start: usize = 0;
    let mut end: usize = total;

    if let Some(after) = after {
        if after >= total {
            return Connection { has_previous_page: false, has_next_page: false, edges: Vec::new() };
        }
        start = after + 1;
    }
    if let Some(before) = before {
        if before == 0 || before > total {
            return Connection { has_previous_page: false, has_next_page: false, edges: Vec::new() };
        }
        end = before;
    }
    if start > end {
        return Connection { has_previous_page: false, has_next_page: false, edges: Vec::new() };
    }
    let mut kept: usize = end - start;
    if let Some(first) = first {
        if first < kept {
            kept = first;
        }
        end = start + kept;
    } else if let Some(last) = last {
        if last < kept {
            kept = last;
        }
        start = end - kept;
    }

    let mut edges: Vec<Edge<T>> = Vec::new();
    let mut idx: usize = 0;
    while idx < kept
        invariant
            idx <= kept,
            start + kept <= total,
            total == characters@.len(),
            edges@.len() == idx,
            forall|i: int| 0 <= i < characters@.len() ==> map_to.requires((#[trigger] characters@[i],)),
            forall|i: int|
                0 <= i < idx ==> (#[trigger] edges@[i]).cursor == start + i && map_to.ensures(
                    (characters@[start + i],),
                    edges@[i].node,
                ),
        decreases kept - idx,
    {
        let node = map_to(characters[start + idx]);
        edges.push(Edge { cursor: start + idx, node });
        idx += 1;
    }
    Connection { has_previous_page: start > 0, has_next_page: end < total, edges }
}

} // verus!
