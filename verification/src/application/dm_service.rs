//! Direct messages, group chats and conversations.

use vstd::prelude::*;
use std::sync::Arc;
use crate::domain::errors::{DomainError, ErrorCode};
use crate::domain::validation::{content_ok, validate_dm_content};
use crate::text::trimmed;

verus! {

/// Application service for direct messages, group chats and conversations,
/// over a message store `D`.
#[derive(Clone)]
pub struct DmService<D: ?Sized> {
    db: Arc<D>,
}

impl<D: ?Sized> DmService<D> {
    /// The store the service works on.
    pub closed spec fn store(&self) -> Arc<D> {
        self.db
    }

    pub fn new(db: Arc<D>) -> (s: Self)
        ensures
            s.store() == db,
    {
        DmService { db }
    }

    /// The store the service works on.
    pub fn db(&self) -> (d: &Arc<D>)
        ensures
            *d == self.store(),
    {
        &self.db
    }

    /// Checks a direct message before it is stored: nobody writes to
    /// themselves (`DmCannotSendToSelf`), and the content must be valid
    /// message content (`DmContentInvalid`). On success, the content
    /// trimmed; the message itself is stored as it was sent.
    pub fn check_direct_message(&self, sender_id: u128, recipient_id: u128, content: &str) -> (r:
        Result<String, DomainError>)
        ensures
            sender_id == recipient_id ==> (r matches Err(e) && e.code
                == ErrorCode::DmCannotSendToSelf && e.message@
                == "Cannot send direct message to yourself"@ && e.params@.len() == 0),
            sender_id != recipient_id ==> (r is Ok <==> content_ok(content@, 2000)),
            sender_id != recipient_id ==> (r matches Err(e) ==> e.code
                == ErrorCode::DmContentInvalid && e.message@ == ErrorCode::DmContentInvalid.name() && e.params@.len() == 0),
            r matches Ok(t) ==> t@ == trimmed(content@),
    {
        if sender_id == recipient_id {
            return Err(
                DomainError::new(
                    ErrorCode::DmCannotSendToSelf,
                    "Cannot send direct message to yourself",
                ),
            );
        }
        validate_dm_content(content)
    }
}

} // verus!
