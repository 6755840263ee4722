//! Search and discovery.

use vstd::prelude::*;
use std::sync::Arc;

verus! {

/// Application service for searching users and posts,
/// over a store `D`.
#[derive(Clone)]
pub struct DiscoveryService<D: ?Sized> {
    db: Arc<D>,
}

impl<D: ?Sized> DiscoveryService<D> {
    /// The store the service works on.
    pub closed spec fn store(&self) -> Arc<D> {
        self.db
    }

    pub fn new(db: Arc<D>) -> (s: Self)
        ensures
            s.store() == db,
    {
        DiscoveryService { db }
    }

    /// The store the service works on.
    pub fn db(&self) -> (d: &Arc<D>)
        ensures
            *d == self.store(),
    {
        &self.db
    }
}

} // verus!
