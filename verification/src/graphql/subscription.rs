//! Which published events each subscription delivers.

use vstd::prelude::*;
use crate::domain::models::{DirectMessage, Notification, TypingEvent};

verus! {

/// Root of the real-time subscriptions.
pub struct SubscriptionRoot;

impl SubscriptionRoot {
    /// A subscriber to the direct messages of `user_id` receives exactly the
    /// messages addressed to that user.
    pub fn direct_message_received(message: &DirectMessage, user_id: u128) -> (b: bool)
        ensures
            b == (message.recipient_id == user_id),
    {
        message.recipient_id == user_id
    }

    /// A subscriber to the notifications of `user_id` receives exactly the
    /// notifications addressed to that user.
    pub fn notification_received(notification: &Notification, user_id: u128) -> (b: bool)
        ensures
            b == (notification.recipient_id == user_id),
    {
        notification.recipient_id == user_id
    }

    /// A subscriber to typing indicators receives the events of the
    /// conversation it names, and the events addressed to the recipient it
    /// names.
    pub fn typing_status(
        event: &TypingEvent,
        conversation_id: Option<u128>,
        recipient_id: Option<u128>,
    ) -> (b: bool)
        ensures
            b == ((conversation_id is Some && event.conversation_id == conversation_id) || (
            recipient_id is Some && event.recipient_id == recipient_id)),
    {
        let by_conversation = match conversation_id {
            Some(c) => match event.conversation_id {
                Some(e) => e == c,
                None => false,
            },
            None => false,
        };
        let by_recipient = match recipient_id {
            Some(r) => match event.recipient_id {
                Some(e) => e == r,
                None => false,
            },
            None => false,
        };
        by_conversation || by_recipient
    }
}

} // verus!
