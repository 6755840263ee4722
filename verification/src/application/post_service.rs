//! Posts, feeds, media and analytics.

use vstd::prelude::*;
use std::sync::Arc;
use crate::domain::errors::{DomainError, ErrorCode};
use crate::domain::models::Post;

verus! {

/// Application service for posts, feeds, likes, reposts, media and
/// analytics, over a post store `R`.
#[derive(Clone)]
pub struct PostService<R: ?Sized> {
    repo: Arc<R>,
}

impl<R: ?Sized> PostService<R> {
    /// The store the service works on.
    pub closed spec fn store(&self) -> Arc<R> {
        self.repo
    }

    pub fn new(repo: Arc<R>) -> (s: Self)
        ensures
            s.store() == repo,
    {
        PostService { repo }
    }

    /// The store the service works on.
    pub fn repo(&self) -> (r: &Arc<R>)
        ensures
            *r == self.store(),
    {
        &self.repo
    }

    /// Whether `requester_id` may see the analytics of the post found:
    /// an unknown post is `PostNotFound`, and only its author may see them
    /// (`ErrorForbidden`).
    pub fn analytics_access(&self, post: &Option<Post>, requester_id: u128) -> (r: Result<
        (),
        DomainError,
    >)
        ensures
            match post {
                None => r matches Err(e) && e.code == ErrorCode::PostNotFound && e.message@
                    == "Post not found"@ && e.params@.len() == 0,
                Some(p) => if p.author_id == requester_id {
                    r is Ok
                } else {
                    r matches Err(e) && e.code == ErrorCode::ErrorForbidden && e.message@
                        == "Only the author can view post analytics"@ && e.params@.len() == 0
                },
            },
    {
        match post {
            None => Err(DomainError::new(ErrorCode::PostNotFound, "Post not found")),
            Some(p) => if p.author_id != requester_id {
                Err(
                    DomainError::new(
                        ErrorCode::ErrorForbidden,
                        "Only the author can view post analytics",
                    ),
                )
            } else {
                Ok(())
            },
        }
    }
}

} // verus!
