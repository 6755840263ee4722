//! The application services and the decisions they take.

pub mod auth_service;
pub mod bookmark_service;
pub mod comment_service;
pub mod discovery_service;
pub mod dm_service;
pub mod helpers;
pub mod moderation_service;
pub mod notification_service;
pub mod poll_service;
pub mod post_service;
pub mod social_service;
pub mod story_service;
pub mod totp_service;
