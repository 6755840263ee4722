//! Reports and their review.

use vstd::prelude::*;
use std::sync::Arc;

verus! {

/// Application service for content reports and their review,
/// over a store `D`.
#[derive(Clone)]
pub struct ModerationService<D: ?Sized> {
    db: Arc<D>,
}

impl<D: ?Sized> ModerationService<D> {
    /// The store the service works on.
    pub closed spec fn store(&self) -> Arc<D> {
        self.db
    }

    pub fn new(db: Arc<D>) -> (s: Self)
        ensures
            s.store() == db,
    {
        ModerationService { db }
    }

    /// The store the service works on.
    pub fn db(&self) -> (d: &Arc<D>)
        ensures
            *d == self.store(),
    {
        &self.db
    }
}

} // verus!
