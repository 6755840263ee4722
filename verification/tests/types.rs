use serve::domain::errors::ErrorCode;
use serve::domain::models::{
    Comment, DirectMessage, MediaType, Notification, NotificationType, PollOption, Post,
    PostAudience, ReportReason, ReportStatus, ReportTargetType, Story, TypingEvent,
};
use serve::graphql::enums::{
    MediaTypeGql, NotificationTypeGql, PostAudienceGql, ReportReasonGql, ReportStatusGql,
    ReportTargetTypeGql,
};
use serve::graphql::subscription::SubscriptionRoot;
use serve::graphql::types::{
    found_or, CommentGql, DirectMessageGql, HashtagTrendGql, NotificationGql,
    NotificationPostTarget, PollOptionGql, PostGql, RootWalk, StoryGql, ThreadWalk,
};
use serve::time::Timestamp;

fn at(secs: i64) -> Timestamp {
    Timestamp::from_unix(secs, 0).unwrap()
}

fn post_with(content: &str) -> Post {
    Post {
        id: 1,
        author_id: 2,
        content: content.to_string(),
        quote_post_id: Some(3),
        pinned_comment_id: None,
        audience: PostAudience::CloseFriends,
        views_count: 0,
        created_at: at(0),
    }
}

fn comment(id: u128, parent_id: Option<u128>) -> Comment {
    Comment {
        id,
        post_id: 1,
        author_id: 2,
        parent_id,
        content: "c".to_string(),
        is_edited: false,
        created_at: at(0),
        updated_at: at(0),
    }
}

fn notification(t: NotificationType, entity_id: Option<u128>) -> Notification {
    Notification {
        id: 1,
        recipient_id: 2,
        actor_id: 3,
        notification_type: t,
        entity_id,
        is_read: false,
        created_at: at(0),
    }
}

#[test]
fn hashtags_in_order_without_marker() {
    let p = PostGql(post_with("Loving #rust and #verus_lang! also # and ##double #go-lang"));
    assert_eq!(p.hashtags(), vec!["rust", "verus_lang", "go"]);
    assert!(PostGql(post_with("no tags")).hashtags().is_empty());
    assert_eq!(PostGql(post_with("#café #日本")).hashtags(), vec!["café", "日本"]);
}

#[test]
fn post_fields_as_shown() {
    let p = PostGql(post_with("x"));
    assert_eq!(p.audience(), PostAudienceGql::CloseFriends);
    assert_eq!(p.quote_post_id().as_deref(), Some("00000000-0000-0000-0000-000000000003"));
    let e = p.author_of(None).unwrap_err();
    assert_eq!((e.code, e.message.as_str()), (ErrorCode::PostAuthorNotFound, "Post author not found"));
}

#[test]
fn found_or_gives_the_error_when_missing() {
    assert_eq!(found_or(Some(4), ErrorCode::ErrorNotFound, "gone").unwrap(), 4);
    let e = found_or::<u8>(None, ErrorCode::ErrorNotFound, "gone").unwrap_err();
    assert_eq!((e.code, e.message.as_str()), (ErrorCode::ErrorNotFound, "gone"));
}

#[test]
fn story_expiry_and_viewers() {
    let s = StoryGql(Story {
        id: 1,
        author_id: 7,
        media_url: "m".to_string(),
        caption: None,
        created_at: at(0),
        expires_at: at(86400),
    });
    assert!(!s.is_expired(at(86400)));
    assert!(s.is_expired(Timestamp::from_unix(86400, 1).unwrap()));
    assert!(s.viewers_access(Some(7)).is_ok());
    let e = s.viewers_access(Some(8)).unwrap_err();
    assert_eq!(e.code, ErrorCode::StoryViewersUnauthorized);
    assert_eq!(e.message, "Unauthorized: Only story authors can view viewer list");
    let e = s.viewers_access(None).unwrap_err();
    assert_eq!(e.code, ErrorCode::StoryViewersAuthRequired);
    assert_eq!(e.message, "Authentication required to view story viewers");
    let e = s.author_of(None).unwrap_err();
    assert_eq!(e.code, ErrorCode::StoryAuthorNotFound);
}

#[test]
fn comment_depth_walk() {
    assert!(matches!(CommentGql(comment(1, None)).depth_start(), ThreadWalk::Finished(0)));
    assert!(matches!(
        CommentGql(comment(2, Some(1))).depth_start(),
        ThreadWalk::Lookup { depth: 1, comment_id: 1 }
    ));
    let parent = comment(1, Some(9));
    assert!(matches!(
        CommentGql::depth_next(1, Some(&parent)),
        ThreadWalk::Lookup { depth: 2, comment_id: 9 }
    ));
    assert!(matches!(CommentGql::depth_next(3, None), ThreadWalk::Finished(3)));
    assert!(matches!(CommentGql::depth_next(4, Some(&comment(9, None))), ThreadWalk::Finished(4)));
    assert!(matches!(CommentGql::depth_next(20, Some(&parent)), ThreadWalk::Finished(21)));
}

#[test]
fn comment_depth_walk_terminates_on_a_cycle() {
    // a thread whose comments point at each other stops after 20 levels
    let a = comment(1, Some(2));
    let b = comment(2, Some(1));
    let mut w = CommentGql(a.clone()).depth_start();
    let mut steps = 0;
    loop {
        match w {
            ThreadWalk::Lookup { depth, comment_id } => {
                let found = if comment_id == 1 { &a } else { &b };
                w = CommentGql::depth_next(depth, Some(found));
                steps += 1;
            }
            ThreadWalk::Finished(d) => {
                assert_eq!(d, 21);
                break;
            }
        }
    }
    assert_eq!(steps, 20);
}

#[test]
fn comment_root_walk() {
    assert!(matches!(CommentGql(comment(1, None)).root_start(), RootWalk::Finished(None)));
    assert!(matches!(
        CommentGql(comment(2, Some(1))).root_start(),
        RootWalk::Lookup { depth: 0, comment_id: 1 }
    ));
    match CommentGql::root_next(0, Some(comment(1, None))) {
        RootWalk::Finished(Some(c)) => assert_eq!(c.id, 1),
        _ => panic!("a comment without parent is the root"),
    }
    assert!(matches!(
        CommentGql::root_next(0, Some(comment(1, Some(5)))),
        RootWalk::Lookup { depth: 1, comment_id: 5 }
    ));
    assert!(matches!(CommentGql::root_next(19, Some(comment(1, Some(5)))), RootWalk::Finished(None)));
    assert!(matches!(CommentGql::root_next(3, None), RootWalk::Finished(None)));
}

#[test]
fn comment_fields_as_shown() {
    let c = CommentGql(comment(1, Some(2)));
    assert_eq!(c.parent_id().as_deref(), Some("00000000-0000-0000-0000-000000000002"));
    assert!(CommentGql(comment(1, None)).parent_id().is_none());
    let e = c.post_of(None).unwrap_err();
    assert_eq!((e.code, e.message.as_str()), (ErrorCode::PostNotFound, "Post not found"));
    let e = c.author_of(None).unwrap_err();
    assert_eq!(e.code, ErrorCode::CommentAuthorNotFound);
}

#[test]
fn notification_targets() {
    let n = NotificationGql(notification(NotificationType::LikePost, Some(5)));
    assert_eq!(n.post_target(), NotificationPostTarget::Post(5));
    assert_eq!(n.comment_target(), None);
    let n = NotificationGql(notification(NotificationType::ReplyComment, Some(6)));
    assert_eq!(n.post_target(), NotificationPostTarget::PostOfComment(6));
    assert_eq!(n.comment_target(), Some(6));
    let n = NotificationGql(notification(NotificationType::Follow, Some(7)));
    assert_eq!(n.post_target(), NotificationPostTarget::NoPost);
    let n = NotificationGql(notification(NotificationType::Quote, None));
    assert_eq!(n.post_target(), NotificationPostTarget::NoPost);
    assert_eq!(n.notification_type(), NotificationTypeGql::Quote);
    let e = n.actor_of(None).unwrap_err();
    assert_eq!((e.code, e.message.as_str()), (ErrorCode::UserNotFound, "Actor user not found"));
    let e = n.recipient_of(None).unwrap_err();
    assert_eq!(e.message, "Recipient user not found");
}

#[test]
fn trends_keep_their_order() {
    let t = HashtagTrendGql::from_counts(vec![("rust".to_string(), 9), ("go".to_string(), 3)]);
    assert_eq!(t.len(), 2);
    assert_eq!((t[0].tag.as_str(), t[0].count), ("rust", 9));
    assert_eq!((t[1].tag.as_str(), t[1].count), ("go", 3));
}

#[test]
fn poll_option_vote_mark() {
    let o = PollOptionGql(PollOption { id: 4, poll_id: 1, option_text: "a".to_string(), sort_order: 0 });
    assert!(o.is_voted_by_me(Some(4)));
    assert!(!o.is_voted_by_me(Some(5)));
    assert!(!o.is_voted_by_me(None));
}

fn dm(recipient_id: u128, conversation_id: Option<u128>) -> DirectMessage {
    DirectMessage {
        id: 1,
        sender_id: 2,
        recipient_id,
        conversation_id,
        content: "hi".to_string(),
        is_read: false,
        is_edited: false,
        created_at: at(0),
    }
}

#[test]
fn direct_message_fields_as_shown() {
    let m = DirectMessageGql(dm(3, None));
    assert!(m.is_mine(Some(2)));
    assert!(!m.is_mine(Some(3)));
    assert!(!m.is_mine(None));
    assert!(m.conversation_id().is_none());
    let e = m.sender_of(None).unwrap_err();
    assert_eq!(e.code, ErrorCode::DmSenderNotFound);
    let e = m.recipient_of(None).unwrap_err();
    assert_eq!(e.code, ErrorCode::DmRecipientNotFound);
}

#[test]
fn subscriptions_deliver_only_what_is_addressed() {
    assert!(SubscriptionRoot::direct_message_received(&dm(3, None), 3));
    assert!(!SubscriptionRoot::direct_message_received(&dm(3, None), 2));
    let n = notification(NotificationType::Follow, None);
    assert!(SubscriptionRoot::notification_received(&n, 2));
    assert!(!SubscriptionRoot::notification_received(&n, 3));
    let group = TypingEvent { user_id: 1, conversation_id: Some(10), recipient_id: None, is_typing: true };
    let direct = TypingEvent { user_id: 1, conversation_id: None, recipient_id: Some(4), is_typing: false };
    assert!(SubscriptionRoot::typing_status(&group, Some(10), None));
    assert!(!SubscriptionRoot::typing_status(&group, Some(11), None));
    assert!(!SubscriptionRoot::typing_status(&group, None, None));
    assert!(SubscriptionRoot::typing_status(&direct, None, Some(4)));
    assert!(SubscriptionRoot::typing_status(&direct, Some(10), Some(4)));
    assert!(!SubscriptionRoot::typing_status(&direct, None, Some(5)));
}

#[test]
fn schema_enums_convert_both_ways() {
    for m in [MediaType::Image, MediaType::Video, MediaType::Gif] {
        assert_eq!(MediaType::from(MediaTypeGql::from(m)), m);
    }
    for m in [PostAudience::Public, PostAudience::FollowersOnly, PostAudience::CloseFriends] {
        assert_eq!(PostAudience::from(PostAudienceGql::from(m)), m);
    }
    for m in [ReportTargetType::Post, ReportTargetType::Comment, ReportTargetType::User] {
        assert_eq!(ReportTargetType::from(ReportTargetTypeGql::from(m)), m);
    }
    for m in [
        ReportReason::Spam,
        ReportReason::Harassment,
        ReportReason::HateSpeech,
        ReportReason::Inappropriate,
        ReportReason::Copyright,
        ReportReason::Other,
    ] {
        assert_eq!(ReportReason::from(ReportReasonGql::from(m)), m);
    }
    for m in [ReportStatus::Pending, ReportStatus::Resolved, ReportStatus::Dismissed] {
        assert_eq!(ReportStatus::from(ReportStatusGql::from(m)), m);
    }
    assert_eq!(MediaTypeGql::from(MediaType::Gif), MediaTypeGql::Gif);
    assert_eq!(ReportReasonGql::from(ReportReason::HateSpeech), ReportReasonGql::HateSpeech);
}
