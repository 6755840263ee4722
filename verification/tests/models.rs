use serve::domain::models::{
    FollowRequestStatus, MediaType, NotificationType, PostAudience, ReportReason, ReportStatus,
    ReportTargetType,
};

#[test]
fn post_audience_names_round_trip() {
    for (v, n) in [
        (PostAudience::Public, "PUBLIC"),
        (PostAudience::FollowersOnly, "FOLLOWERS_ONLY"),
        (PostAudience::CloseFriends, "CLOSE_FRIENDS"),
    ] {
        assert_eq!(v.as_str(), n);
        assert_eq!(PostAudience::parse(n), v);
        assert_eq!(n.parse::<PostAudience>().unwrap(), v);
    }
}

#[test]
fn unknown_post_audience_is_public() {
    assert_eq!(PostAudience::parse("friends"), PostAudience::Public);
    assert_eq!(PostAudience::parse("followers_only"), PostAudience::Public);
    assert_eq!("".parse::<PostAudience>().unwrap(), PostAudience::Public);
}

#[test]
fn media_type_names_round_trip() {
    for (v, n) in [(MediaType::Image, "IMAGE"), (MediaType::Video, "VIDEO"), (MediaType::Gif, "GIF")] {
        assert_eq!(v.as_str(), n);
        assert_eq!(MediaType::parse(n), v);
    }
    assert_eq!(MediaType::parse("AUDIO"), MediaType::Image);
    assert_eq!("gif".parse::<MediaType>().unwrap(), MediaType::Image);
}

#[test]
fn report_target_type_names_round_trip() {
    for (v, n) in [
        (ReportTargetType::Post, "POST"),
        (ReportTargetType::Comment, "COMMENT"),
        (ReportTargetType::User, "USER"),
    ] {
        assert_eq!(v.as_str(), n);
        assert_eq!(ReportTargetType::parse(n), v);
    }
    assert_eq!(ReportTargetType::parse("STORY"), ReportTargetType::Post);
}

#[test]
fn report_reason_names_round_trip() {
    for (v, n) in [
        (ReportReason::Spam, "SPAM"),
        (ReportReason::Harassment, "HARASSMENT"),
        (ReportReason::HateSpeech, "HATE_SPEECH"),
        (ReportReason::Inappropriate, "INAPPROPRIATE"),
        (ReportReason::Copyright, "COPYRIGHT"),
        (ReportReason::Other, "OTHER"),
    ] {
        assert_eq!(v.as_str(), n);
        assert_eq!(ReportReason::parse(n), v);
        assert_eq!(n.parse::<ReportReason>().unwrap(), v);
    }
    assert_eq!(ReportReason::parse("SCAM"), ReportReason::Spam);
}

#[test]
fn report_status_names_round_trip() {
    for (v, n) in [
        (ReportStatus::Pending, "PENDING"),
        (ReportStatus::Resolved, "RESOLVED"),
        (ReportStatus::Dismissed, "DISMISSED"),
    ] {
        assert_eq!(v.as_str(), n);
        assert_eq!(ReportStatus::parse(n), v);
    }
    assert_eq!(ReportStatus::parse("CLOSED"), ReportStatus::Pending);
}

#[test]
fn follow_request_status_names_round_trip() {
    for (v, n) in [
        (FollowRequestStatus::Pending, "PENDING"),
        (FollowRequestStatus::Accepted, "ACCEPTED"),
        (FollowRequestStatus::Rejected, "REJECTED"),
    ] {
        assert_eq!(v.as_str(), n);
        assert_eq!(FollowRequestStatus::parse(n), Some(v));
        assert_eq!(n.parse::<FollowRequestStatus>().ok(), Some(v));
    }
    assert_eq!(FollowRequestStatus::parse("pending"), None);
    assert!("WITHDRAWN".parse::<FollowRequestStatus>().is_err());
}

#[test]
fn notification_type_names_round_trip() {
    let all = [
        (NotificationType::LikePost, "LIKE_POST"),
        (NotificationType::CommentPost, "COMMENT_POST"),
        (NotificationType::Follow, "FOLLOW"),
        (NotificationType::ReplyComment, "REPLY_COMMENT"),
        (NotificationType::Repost, "REPOST"),
        (NotificationType::Quote, "QUOTE"),
        (NotificationType::Mention, "MENTION"),
        (NotificationType::FollowRequest, "FOLLOW_REQUEST"),
        (NotificationType::FollowAccepted, "FOLLOW_ACCEPTED"),
        (NotificationType::LikeComment, "LIKE_COMMENT"),
        (NotificationType::PollEnded, "POLL_ENDED"),
    ];
    for (v, n) in all {
        assert_eq!(v.as_str(), n);
        assert_eq!(NotificationType::parse(n), Some(v));
    }
    assert_eq!(NotificationType::parse("UNFOLLOW"), None);
    assert!("".parse::<NotificationType>().is_err());
}
