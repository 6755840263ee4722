use serve::application::social_service::FollowPlan;
use serve::domain::errors::ErrorCode;
use serve::domain::events::NotificationDraft;
use serve::domain::models::{
    Comment, MediaType, NotificationType, PollOption, Post, PostAudience, User,
};
use serve::graphql::enums::MediaTypeGql;
use serve::graphql::mutation::{
    CommentRecipient,
    AuthMutation, CommentMutation, DmMutation, PollMutation, PostMutation, SocialMutation,
};
use serve::graphql::types::{CreatePollInput, MediaInput};
use serve::time::Timestamp;

fn epoch() -> Timestamp {
    Timestamp::from_unix(0, 0).unwrap()
}

fn user(id: u128, is_private: bool, is_2fa_enabled: bool, totp_secret: Option<&str>) -> User {
    User {
        id,
        username: format!("user{id}"),
        email: format!("user{id}@example.com"),
        password_hash: "hash".to_string(),
        display_name: "User".to_string(),
        bio: None,
        avatar_url: None,
        header_image_url: None,
        location: None,
        website: None,
        is_private,
        is_2fa_enabled,
        totp_secret: totp_secret.map(|s| s.to_string()),
        created_at: epoch(),
    }
}

fn post(id: u128, author_id: u128) -> Post {
    Post {
        id,
        author_id,
        content: "hello".to_string(),
        quote_post_id: None,
        pinned_comment_id: None,
        audience: PostAudience::Public,
        views_count: 0,
        created_at: epoch(),
    }
}

fn comment(id: u128, author_id: u128) -> Comment {
    Comment {
        id,
        post_id: 1,
        author_id,
        parent_id: None,
        content: "nice".to_string(),
        is_edited: false,
        created_at: epoch(),
        updated_at: epoch(),
    }
}

fn media(url: &str, t: Option<MediaTypeGql>, sort_order: Option<i32>) -> MediaInput {
    MediaInput {
        media_url: url.to_string(),
        media_type: t,
        alt_text: Some(format!("alt {url}")),
        sort_order,
        width: Some(640),
        height: None,
    }
}

#[test]
fn post_media_defaults_type_and_order() {
    let r = PostMutation::post_media(
        9,
        vec![
            media("a.png", None, None),
            media("b.mp4", Some(MediaTypeGql::Video), Some(7)),
            media("c.gif", Some(MediaTypeGql::Gif), None),
        ],
    );
    assert_eq!(r.len(), 3);
    assert_eq!(r[0].media_type, MediaType::Image);
    assert_eq!(r[0].sort_order, 0);
    assert_eq!(r[1].media_type, MediaType::Video);
    assert_eq!(r[1].sort_order, 7);
    assert_eq!(r[2].media_type, MediaType::Gif);
    assert_eq!(r[2].sort_order, 2);
    for (m, url) in r.iter().zip(["a.png", "b.mp4", "c.gif"]) {
        assert_eq!(m.post_id, 9);
        assert_eq!(m.media_url, url);
        assert_eq!(m.alt_text.as_deref(), Some(format!("alt {url}").as_str()));
        assert_eq!(m.width, Some(640));
        assert_eq!(m.height, None);
    }
    assert_ne!(r[0].id, r[1].id);
    assert!(PostMutation::post_media(9, vec![]).is_empty());
}

#[test]
fn polls_last_a_day_by_default() {
    let p = CreatePollInput { question: "?".to_string(), options: vec![], duration_seconds: None };
    assert_eq!(PostMutation::poll_duration(&p), 86400);
    let p = CreatePollInput { question: "?".to_string(), options: vec![], duration_seconds: Some(60) };
    assert_eq!(PostMutation::poll_duration(&p), 60);
}

#[test]
fn mentions_are_the_handles_after_at_signs() {
    assert_eq!(
        PostMutation::mention_handles("hi @alice and @bob_2, @ again @carol!"),
        vec!["alice", "bob_2", "", "carol"]
    );
    assert!(PostMutation::mention_handles("no mentions here, mail a@b.c").is_empty());
}

#[test]
fn nobody_is_notified_of_their_own_actions() {
    assert!(PostMutation::mention_notification(5, 5, 1).is_none());
    assert!(PostMutation::quote_notification(Some(&post(1, 5)), 5, 2).is_none());
    assert!(PostMutation::repost_notification(&post(1, 5), 5).is_none());
    assert!(PostMutation::like_notification(&post(1, 5), 5).is_none());
    assert!(CommentMutation::comment_notification(false, Some(5), 5, 3).is_none());
    assert!(CommentMutation::like_notification(&comment(3, 5), 5).is_none());
    assert!(NotificationDraft::to_other(5, 5, NotificationType::Follow, None).is_none());
}

#[test]
fn others_are_notified() {
    let d = PostMutation::mention_notification(6, 5, 1).unwrap();
    assert_eq!(d, NotificationDraft::new(6, 5, NotificationType::Mention, Some(1)));
    let d = PostMutation::quote_notification(Some(&post(1, 6)), 5, 2).unwrap();
    assert_eq!(d, NotificationDraft::new(6, 5, NotificationType::Quote, Some(2)));
    assert!(PostMutation::quote_notification(None, 5, 2).is_none());
    let d = PostMutation::repost_notification(&post(1, 6), 5).unwrap();
    assert_eq!(d, NotificationDraft::new(6, 5, NotificationType::Repost, Some(1)));
    let d = PostMutation::like_notification(&post(1, 6), 5).unwrap();
    assert_eq!(d, NotificationDraft::new(6, 5, NotificationType::LikePost, Some(1)));
    let d = CommentMutation::comment_notification(false, Some(6), 5, 3).unwrap();
    assert_eq!(d, NotificationDraft::new(6, 5, NotificationType::CommentPost, Some(3)));
    let d = CommentMutation::comment_notification(true, Some(6), 5, 3).unwrap();
    assert_eq!(d, NotificationDraft::new(6, 5, NotificationType::ReplyComment, Some(3)));
    assert!(CommentMutation::comment_notification(true, None, 5, 3).is_none());
    let d = CommentMutation::like_notification(&comment(3, 6), 5).unwrap();
    assert_eq!(d, NotificationDraft::new(6, 5, NotificationType::LikeComment, Some(3)));
}

#[test]
fn follow_plan_checks_self_and_target() {
    let e = SocialMutation::follow_plan(1, 1, Some(user(1, false, false, None))).unwrap_err();
    assert_eq!(e.code, ErrorCode::UserCannotFollowSelf);
    assert_eq!(e.message, "USER_CANNOT_FOLLOW_SELF");
    let e = SocialMutation::follow_plan(1, 2, None).unwrap_err();
    assert_eq!(e.code, ErrorCode::UserNotFound);
    assert_eq!(e.message, "Target user not found");
    assert!(matches!(
        SocialMutation::follow_plan(1, 2, Some(user(2, false, false, None))).unwrap(),
        FollowPlan::Direct
    ));
    match SocialMutation::follow_plan(1, 2, Some(user(2, true, false, None))).unwrap() {
        FollowPlan::Request(u) => assert_eq!(u.id, 2),
        FollowPlan::Direct => panic!("private accounts get a follow request"),
    }
}

#[test]
fn follow_notifications() {
    assert_eq!(
        SocialMutation::follow_notification(1, 2, true),
        NotificationDraft::new(2, 1, NotificationType::FollowRequest, None)
    );
    assert_eq!(
        SocialMutation::follow_notification(1, 2, false),
        NotificationDraft::new(2, 1, NotificationType::Follow, None)
    );
    assert_eq!(
        SocialMutation::accept_notification(2, 1),
        NotificationDraft::new(1, 2, NotificationType::FollowAccepted, None)
    );
}

#[test]
fn direct_message_checks() {
    assert!(DmMutation::recipient_check(1, 2).is_ok());
    let e = DmMutation::recipient_check(1, 1).unwrap_err();
    assert_eq!(e.code, ErrorCode::DmCannotSendToSelf);
    assert_eq!(e.message, "DM_CANNOT_SEND_TO_SELF");
    let e = DmMutation::message_content(true, "hi").unwrap_err();
    assert_eq!(e.code, ErrorCode::UserBlocked);
    assert_eq!(e.message, "Cannot message blocked user");
    assert_eq!(DmMutation::message_content(false, " hi ").unwrap(), "hi");
    let e = DmMutation::message_content(false, " ").unwrap_err();
    assert_eq!(e.code, ErrorCode::DmContentInvalid);
}

fn option(id: u128, text: &str) -> PollOption {
    PollOption { id, poll_id: 1, option_text: text.to_string(), sort_order: 0 }
}

#[test]
fn voted_option_is_found_by_id() {
    let o = PollMutation::voted_option(vec![option(1, "a"), option(2, "b"), option(2, "c")], 2).unwrap();
    assert_eq!(o.option_text, "b");
    let e = PollMutation::voted_option(vec![option(1, "a")], 3).unwrap_err();
    assert_eq!(e.code, ErrorCode::ErrorNotFound);
    assert_eq!(e.message, "Option not found");
    assert!(PollMutation::voted_option(vec![], 3).is_err());
}

#[test]
fn two_factor_setup_decisions() {
    let e = AuthMutation::setup_2fa_account(None).unwrap_err();
    assert_eq!((e.code, e.message.as_str()), (ErrorCode::UserNotFound, "User not found"));
    let e = AuthMutation::setup_2fa_account(Some(user(1, false, true, Some("S")))).unwrap_err();
    assert_eq!((e.code, e.message.as_str()), (ErrorCode::TotpAlreadyEnabled, "2FA is already enabled"));
    assert_eq!(AuthMutation::setup_2fa_account(Some(user(1, false, false, None))).unwrap().id, 1);

    let e = AuthMutation::enable_2fa_secret(None).unwrap_err();
    assert_eq!(e.code, ErrorCode::UserNotFound);
    let e = AuthMutation::enable_2fa_secret(Some(user(1, false, false, None))).unwrap_err();
    assert_eq!((e.code, e.message.as_str()), (ErrorCode::TotpNotEnabled, "TOTP setup not initiated"));
    assert_eq!(AuthMutation::enable_2fa_secret(Some(user(1, false, false, Some("S")))).unwrap(), "S");

    let e = AuthMutation::disable_2fa_secret(None).unwrap_err();
    assert_eq!(e.code, ErrorCode::UserNotFound);
    let e = AuthMutation::disable_2fa_secret(Some(user(1, false, false, Some("S")))).unwrap_err();
    assert_eq!((e.code, e.message.as_str()), (ErrorCode::TotpNotEnabled, "2FA is not enabled"));
    let e = AuthMutation::disable_2fa_secret(Some(user(1, false, true, None))).unwrap_err();
    assert_eq!((e.code, e.message.as_str()), (ErrorCode::TotpNotEnabled, "TOTP secret missing"));
    assert_eq!(AuthMutation::disable_2fa_secret(Some(user(1, false, true, Some("S")))).unwrap(), "S");
}

#[test]
fn comment_recipient_is_parent_or_post() {
    assert_eq!(CommentMutation::comment_recipient(1, Some(9)), CommentRecipient::ParentComment(9));
    assert_eq!(CommentMutation::comment_recipient(1, None), CommentRecipient::Post(1));
}
