//! User profiles, the social graph, follow requests and user lists.

use vstd::prelude::*;
use std::sync::Arc;
use crate::domain::errors::{DomainError, ErrorCode};
use crate::domain::models::User;

verus! {

/// How a follow is carried out.
#[derive(Debug, Clone)]
pub enum FollowPlan {
    /// The account is private: a follow request is created, and the
    /// account is returned as it is.
    Request(User),
    /// The account is public: the follow is made at once.
    Direct,
}

/// Application service for profiles, follows, blocks, mutes, follow
/// requests and user lists, over a store `D`.
#[derive(Clone)]
pub struct SocialService<D: ?Sized> {
    db: Arc<D>,
}

impl<D: ?Sized> SocialService<D> {
    /// The store the service works on.
    pub closed spec fn store(&self) -> Arc<D> {
        self.db
    }

    pub fn new(db: Arc<D>) -> (s: Self)
        ensures
            s.store() == db,
    {
        SocialService { db }
    }

    /// The store the service works on.
    pub fn db(&self) -> (d: &Arc<D>)
        ensures
            *d == self.store(),
    {
        &self.db
    }

    /// How a follow goes, given the account found for the followee: an
    /// unknown account is `UserNotFound`, a private one gets a follow
    /// request, a public one is followed at once.
    pub fn follow_route(&self, followee: Option<User>) -> (r: Result<FollowPlan, DomainError>)
        ensures
            match followee {
                None => r matches Err(e) && e.code == ErrorCode::UserNotFound && e.message@
                    == "User not found"@ && e.params@.len() == 0,
                Some(u) => if u.is_private {
                    r matches Ok(FollowPlan::Request(v)) && v == u
                } else {
                    r matches Ok(FollowPlan::Direct)
                },
            },
    {
        match followee {
            None => Err(DomainError::new(ErrorCode::UserNotFound, "User not found")),
            Some(u) => if u.is_private {
                Ok(FollowPlan::Request(u))
            } else {
                Ok(FollowPlan::Direct)
            },
        }
    }
}

} // verus!
