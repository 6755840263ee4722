//! Notifications and their read state.

use vstd::prelude::*;
use std::sync::Arc;

verus! {

/// Application service for notifications and their read state,
/// over a store `D`.
#[derive(Clone)]
pub struct NotificationService<D: ?Sized> {
    db: Arc<D>,
}

impl<D: ?Sized> NotificationService<D> {
    /// The store the service works on.
    pub closed spec fn store(&self) -> Arc<D> {
        self.db
    }

    pub fn new(db: Arc<D>) -> (s: Self)
        ensures
            s.store() == db,
    {
        NotificationService { db }
    }

    /// The store the service works on.
    pub fn db(&self) -> (d: &Arc<D>)
        ensures
            *d == self.store(),
    {
        &self.db
    }
}

} // verus!
