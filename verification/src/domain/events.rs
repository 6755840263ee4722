//! Notifications that the application decides to create and publish.

use vstd::prelude::*;
use crate::domain::models::NotificationType;

verus! {

/// The arguments of a notification to be created: who receives it, who
/// caused it, what it reports and the entity it is about.
#[derive(Debug, Clone, Copy, PartialEq, Eq, Structural)]
pub struct NotificationDraft {
    pub recipient_id: u128,
    pub actor_id: u128,
    pub notification_type: NotificationType,
    pub entity_id: Option<u128>,
}

impl NotificationDraft {
    /// A notification with the given fields.
    pub fn new(
        recipient_id: u128,
        actor_id: u128,
        notification_type: NotificationType,
        entity_id: Option<u128>,
    ) -> (d: NotificationDraft)
        ensures
            d == (NotificationDraft { recipient_id, actor_id, notification_type, entity_id }),
    {
        NotificationDraft { recipient_id, actor_id, notification_type, entity_id }
    }

    /// A notification to `recipient_id`, unless the recipient is the actor:
    /// nobody is notified of their own actions.
    pub fn to_other(
        recipient_id: u128,
        actor_id: u128,
        notification_type: NotificationType,
        entity_id: Option<u128>,
    ) -> (d: Option<NotificationDraft>)
        ensures
            d is Some <==> recipient_id != actor_id,
            d matches Some(n) ==> n == (NotificationDraft {
                recipient_id,
                actor_id,
                notification_type,
                entity_id,
            }),
    {
        if recipient_id != actor_id {
            Some(Self::new(recipient_id, actor_id, notification_type, entity_id))
        } else {
            None
        }
    }
}

} // verus!
