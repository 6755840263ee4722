//! Bookmarks and bookmark collections.

use vstd::prelude::*;
use std::sync::Arc;

verus! {

/// Application service for bookmarks and bookmark collections,
/// over a store `D`.
#[derive(Clone)]
pub struct BookmarkService<D: ?Sized> {
    db: Arc<D>,
}

impl<D: ?Sized> BookmarkService<D> {
    /// The store the service works on.
    pub closed spec fn store(&self) -> Arc<D> {
        self.db
    }

    pub fn new(db: Arc<D>) -> (s: Self)
        ensures
            s.store() == db,
    {
        BookmarkService { db }
    }

    /// The store the service works on.
    pub fn db(&self) -> (d: &Arc<D>)
        ensures
            *d == self.store(),
    {
        &self.db
    }
}

} // verus!
