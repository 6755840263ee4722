//! Comments and comment likes.

use vstd::prelude::*;
use std::sync::Arc;

verus! {

/// Application service for comments on posts and their likes,
/// over a store `D`.
#[derive(Clone)]
pub struct CommentService<D: ?Sized> {
    db: Arc<D>,
}

impl<D: ?Sized> CommentService<D> {
    /// The store the service works on.
    pub closed spec fn store(&self) -> Arc<D> {
        self.db
    }

    pub fn new(db: Arc<D>) -> (s: Self)
        ensures
            s.store() == db,
    {
        CommentService { db }
    }

    /// The store the service works on.
    pub fn db(&self) -> (d: &Arc<D>)
        ensures
            *d == self.store(),
    {
        &self.db
    }
}

} // verus!
