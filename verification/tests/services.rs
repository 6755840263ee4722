use std::sync::Arc;

use serve::application::auth_service::AuthService;
use serve::application::bookmark_service::BookmarkService;
use serve::application::comment_service::CommentService;
use serve::application::discovery_service::DiscoveryService;
use serve::application::dm_service::DmService;
use serve::application::moderation_service::ModerationService;
use serve::application::notification_service::NotificationService;
use serve::application::poll_service::PollService;
use serve::application::post_service::PostService;
use serve::application::social_service::{FollowPlan, SocialService};
use serve::application::story_service::StoryService;
use serve::domain::errors::ErrorCode;
use serve::domain::models::{Post, PostAudience, User};
use serve::time::Timestamp;

fn epoch() -> Timestamp {
    Timestamp::from_unix(0, 0).unwrap()
}

fn user(id: u128, is_private: bool) -> User {
    User {
        id,
        username: format!("user{id}"),
        email: format!("user{id}@example.com"),
        password_hash: "hash".to_string(),
        display_name: "User".to_string(),
        bio: None,
        avatar_url: None,
        header_image_url: None,
        location: None,
        website: None,
        is_private,
        is_2fa_enabled: false,
        totp_secret: None,
        created_at: epoch(),
    }
}

fn post(id: u128, author_id: u128) -> Post {
    Post {
        id,
        author_id,
        content: "hello".to_string(),
        quote_post_id: None,
        pinned_comment_id: None,
        audience: PostAudience::Public,
        views_count: 0,
        created_at: epoch(),
    }
}

#[test]
fn services_hold_their_store() {
    let store = Arc::new(17u32);
    assert_eq!(**PostService::new(store.clone()).repo(), 17);
    assert_eq!(**CommentService::new(store.clone()).db(), 17);
    assert_eq!(**SocialService::new(store.clone()).db(), 17);
    assert_eq!(**DmService::new(store.clone()).db(), 17);
    assert_eq!(**StoryService::new(store.clone()).db(), 17);
    assert_eq!(**NotificationService::new(store.clone()).db(), 17);
    assert_eq!(**BookmarkService::new(store.clone()).db(), 17);
    assert_eq!(**PollService::new(store.clone()).db(), 17);
    assert_eq!(**ModerationService::new(store.clone()).db(), 17);
    assert_eq!(**DiscoveryService::new(store.clone()).db(), 17);
    let auth = AuthService::new(store.clone(), "secret");
    assert_eq!(**auth.repository(), 17);
    assert_eq!(*auth.auth_config(), "secret");
    assert!(Arc::ptr_eq(SocialService::new(store.clone()).db(), &store));
}

#[test]
fn login_succeeds_only_with_a_matching_password() {
    let auth = AuthService::new(Arc::new(()), ());
    let u = auth.login_outcome(Some((user(4, false), true))).unwrap();
    assert_eq!(u.id, 4);
}

#[test]
fn refused_logins_look_the_same() {
    let auth = AuthService::new(Arc::new(()), ());
    let unknown = auth.login_outcome(None).unwrap_err();
    let wrong = auth.login_outcome(Some((user(4, false), false))).unwrap_err();
    assert_eq!(unknown.code, ErrorCode::AuthInvalidCredentials);
    assert_eq!(unknown.message, "AUTH_INVALID_CREDENTIALS");
    assert_eq!(unknown.code, wrong.code);
    assert_eq!(unknown.message, wrong.message);
    assert_eq!(unknown.params, wrong.params);
}

#[test]
fn signup_checks_fields_in_order() {
    let auth = AuthService::new(Arc::new(()), ());
    assert!(auth.check_signup("ferro_dev", "dev@ferro.io", "password123").is_ok());
    let e = auth.check_signup("x", "bad", "short").unwrap_err();
    assert_eq!(e.code, ErrorCode::AuthInvalidUsername);
    let e = auth.check_signup("ferro_dev", "bad", "short").unwrap_err();
    assert_eq!(e.code, ErrorCode::AuthInvalidEmail);
    let e = auth.check_signup("ferro_dev", "dev@ferro.io", "short").unwrap_err();
    assert_eq!(e.code, ErrorCode::AuthPasswordTooShort);
    assert_eq!(e.message, "AUTH_PASSWORD_TOO_SHORT");
}

#[test]
fn only_the_author_sees_post_analytics() {
    let svc = PostService::new(Arc::new(()));
    assert!(svc.analytics_access(&Some(post(1, 10)), 10).is_ok());
    let e = svc.analytics_access(&Some(post(1, 10)), 11).unwrap_err();
    assert_eq!(e.code, ErrorCode::ErrorForbidden);
    assert_eq!(e.message, "Only the author can view post analytics");
    let e = svc.analytics_access(&None, 10).unwrap_err();
    assert_eq!(e.code, ErrorCode::PostNotFound);
    assert_eq!(e.message, "Post not found");
}

#[test]
fn follow_route_depends_on_the_account() {
    let svc = SocialService::new(Arc::new(()));
    match svc.follow_route(Some(user(2, true))).unwrap() {
        FollowPlan::Request(u) => assert_eq!(u.id, 2),
        FollowPlan::Direct => panic!("a private account gets a request"),
    }
    assert!(matches!(svc.follow_route(Some(user(3, false))).unwrap(), FollowPlan::Direct));
    let e = svc.follow_route(None).unwrap_err();
    assert_eq!(e.code, ErrorCode::UserNotFound);
    assert_eq!(e.message, "User not found");
}

#[test]
fn direct_messages_are_checked_before_sending() {
    let svc = DmService::new(Arc::new(()));
    assert_eq!(svc.check_direct_message(1, 2, "  hi there ").unwrap(), "hi there");
    let e = svc.check_direct_message(1, 1, "hi").unwrap_err();
    assert_eq!(e.code, ErrorCode::DmCannotSendToSelf);
    assert_eq!(e.message, "Cannot send direct message to yourself");
    let e = svc.check_direct_message(1, 1, "").unwrap_err();
    assert_eq!(e.code, ErrorCode::DmCannotSendToSelf);
    let e = svc.check_direct_message(1, 2, "   ").unwrap_err();
    assert_eq!(e.code, ErrorCode::DmContentInvalid);
    assert!(svc.check_direct_message(1, 2, &"m".repeat(2001)).is_err());
}
