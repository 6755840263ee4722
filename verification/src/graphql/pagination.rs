//! Cursor pagination: the page requested by `first`/`after` arguments and
//! the cursors of the entities on a page.

use vstd::prelude::*;
use crate::domain::models::{Comment, DirectMessage, Notification, Post};
use crate::graphql::cursor::{cursor_text, decode_cursor, decoded_cursor, encode_cursor};
use crate::time::Timestamp;

verus! {

/// Entities that pages are made of, ordered and found again by creation
/// time and id.
pub trait Paged {
    /// Creation time and id of the entity.
    spec fn key_of(&self) -> (Timestamp, u128);

    /// Creation time and id of the entity.
    fn cursor_key(&self) -> (k: (Timestamp, u128))
        ensures
            k == self.key_of(),
    ;
}

/// The cursor text of an entity.
pub open spec fn cursor_of<T: Paged>(item: T) -> Seq<char> {
    cursor_text(item.key_of().0.seconds(), item.key_of().0.subsec_nanos(), item.key_of().1)
}

impl Paged for Post {
    open spec fn key_of(&self) -> (Timestamp, u128) {
        (self.created_at, self.id)
    }

    fn cursor_key(&self) -> (k: (Timestamp, u128)) {
        (self.created_at, self.id)
    }
}

impl Paged for Comment {
    open spec fn key_of(&self) -> (Timestamp, u128) {
        (self.created_at, self.id)
    }

    fn cursor_key(&self) -> (k: (Timestamp, u128)) {
        (self.created_at, self.id)
    }
}

impl Paged for DirectMessage {
    open spec fn key_of(&self) -> (Timestamp, u128) {
        (self.created_at, self.id)
    }

    fn cursor_key(&self) -> (k: (Timestamp, u128)) {
        (self.created_at, self.id)
    }
}

impl Paged for Notification {
    open spec fn key_of(&self) -> (Timestamp, u128) {
        (self.created_at, self.id)
    }

    fn cursor_key(&self) -> (k: (Timestamp, u128)) {
        (self.created_at, self.id)
    }
}

/// The cursor of an entity.
pub fn cursor_for<T: Paged>(item: &T) -> (c: String)
    ensures
        c@ == cursor_of(*item),
{
    let k = item.cursor_key();
    encode_cursor(k.0, k.1)
}

/// Page size asked for by `first`: 20 when absent, otherwise `first`
/// clamped to 1..=100.
pub open spec fn page_size_of(first: Option<usize>) -> usize {
    let n = match first {
        Some(n) => n,
        None => 20,
    };
    if n < 1 {
        1
    } else if n > 100 {
        100
    } else {
        n
    }
}

/// A page request: its size, the position after which it starts, and
/// whether an `after` cursor was given at all.
pub struct PageRequest {
    pub first: usize,
    pub after: Option<(Timestamp, u128)>,
    pub has_previous_page: bool,
}

impl PageRequest {
    /// The page asked for by the `first` and `after` arguments of a
    /// connection field. A text that is not a cursor asks for the first page,
    /// yet the page still reports a previous page.
    pub fn new(first: Option<usize>, after: Option<&str>) -> (r: PageRequest)
        ensures
            r.first == page_size_of(first),
            1 <= r.first <= 100,
            r.has_previous_page == after is Some,
            match after {
                None => r.after is None,
                Some(text) => match decoded_cursor(text@) {
                    None => r.after is None,
                    Some(d) => r.after matches Some(p) && d == (
                        p.0.seconds(),
                        p.0.subsec_nanos(),
                        p.1,
                    ),
                },
            },
    {
        let n = match first {
            Some(n) => n,
            None => 20,
        };
        let size = if n < 1 {
            1
        } else if n > 100 {
            100
        } else {
            n
        };
        let position = match after {
            Some(text) => decode_cursor(text),
            None => None,
        };
        PageRequest { first: size, after: position, has_previous_page: after.is_some() }
    }
}

/// Page metadata of a connection.
#[derive(Clone, Debug)]
pub struct PageInfoGql {
    pub has_next_page: bool,
    pub has_previous_page: bool,
    pub start_cursor: Option<String>,
    pub end_cursor: Option<String>,
}

/// Whether `info` describes a page holding `items`: the flags as given, the
/// cursors of the first and last items (none for an empty page).
pub open spec fn describes_page<T: Paged>(
    info: PageInfoGql,
    items: Seq<T>,
    has_next_page: bool,
    has_previous_page: bool,
) -> bool {
    &&& info.has_next_page == has_next_page
    &&& info.has_previous_page == has_previous_page
    &&& info.start_cursor is Some <==> items.len() > 0
    &&& info.end_cursor is Some <==> items.len() > 0
    &&& info.start_cursor matches Some(c) ==> c@ == cursor_of(items[0])
    &&& info.end_cursor matches Some(c) ==> c@ == cursor_of(items.last())
}

impl PageInfoGql {
    /// Metadata of a page holding `items`.
    pub fn of_page<T: Paged>(items: &Vec<T>, has_next_page: bool, has_previous_page: bool) -> (p:
        PageInfoGql)
        ensures
            describes_page(p, items@, has_next_page, has_previous_page),
    {
        if items.len() == 0 {
            PageInfoGql { has_next_page, has_previous_page, start_cursor: None, end_cursor: None }
        } else {
            let start = cursor_for(&items[0]);
            let end = cursor_for(&items[items.len() - 1]);
            PageInfoGql {
                has_next_page,
                has_previous_page,
                start_cursor: Some(start),
                end_cursor: Some(end),
            }
        }
    }

    /// Whether a next page exists.
    pub fn has_next_page(&self) -> (b: bool)
        ensures
            b == self.has_next_page,
    {
        self.has_next_page
    }

    /// Whether a previous page exists.
    pub fn has_previous_page(&self) -> (b: bool)
        ensures
            b == self.has_previous_page,
    {
        self.has_previous_page
    }
}

} // verus!
