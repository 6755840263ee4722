//! Enumerations of the domain model and their wire names.

use vstd::prelude::*;
use crate::text::str_eq;
use crate::time::Timestamp;

verus! {

/// Audience a post is visible to.
#[derive(Debug, Clone, Copy, PartialEq, Eq, Hash, Structural)]
pub enum PostAudience {
    Public,
    FollowersOnly,
    CloseFriends,
}

impl PostAudience {
    /// The wire name of the value.
    pub open spec fn name(self) -> Seq<char> {
        match self {
            PostAudience::Public => "PUBLIC"@,
            PostAudience::FollowersOnly => "FOLLOWERS_ONLY"@,
            PostAudience::CloseFriends => "CLOSE_FRIENDS"@,
        }
    }

    /// The value whose wire name is `s`, if any.
    pub open spec fn named(s: Seq<char>) -> Option<Self> {
        if s == "PUBLIC"@ {
            Some(PostAudience::Public)
        } else if s == "FOLLOWERS_ONLY"@ {
            Some(PostAudience::FollowersOnly)
        } else if s == "CLOSE_FRIENDS"@ {
            Some(PostAudience::CloseFriends)
        } else {
            None
        }
    }

    /// The wire name of the value (such as `"PUBLIC"`).
    pub fn as_str(&self) -> (s: &'static str)
        ensures
            s@ == self.name(),
    {
        match self {
            PostAudience::Public => "PUBLIC",
            PostAudience::FollowersOnly => "FOLLOWERS_ONLY",
            PostAudience::CloseFriends => "CLOSE_FRIENDS",
        }
    }

    /// The value named by `s`; any other text reads as `Public`.
    pub fn parse(s: &str) -> (r: Self)
        ensures
            r == (match Self::named(s@) {
                Some(v) => v,
                None => PostAudience::Public,
            }),
    {
        proof {
            lemma_post_audience_names_distinct();
        }
        if str_eq(s, "FOLLOWERS_ONLY") {
            return PostAudience::FollowersOnly;
        }
        if str_eq(s, "CLOSE_FRIENDS") {
            return PostAudience::CloseFriends;
        }
        PostAudience::Public
    }
}

/// The wire names of `PostAudience` are pairwise distinct.
proof fn lemma_post_audience_names_distinct()
    ensures
        "PUBLIC"@ != "FOLLOWERS_ONLY"@,
        "PUBLIC"@ != "CLOSE_FRIENDS"@,
        "FOLLOWERS_ONLY"@ != "CLOSE_FRIENDS"@,
{
    reveal_strlit("PUBLIC");
    reveal_strlit("FOLLOWERS_ONLY");
    reveal_strlit("CLOSE_FRIENDS");
    assert("PUBLIC"@.len() != "FOLLOWERS_ONLY"@.len());
    assert("PUBLIC"@.len() != "CLOSE_FRIENDS"@.len());
    assert("FOLLOWERS_ONLY"@.len() != "CLOSE_FRIENDS"@.len());
}

/// Reading the wire name of a `PostAudience` gives the value back.
pub proof fn lemma_post_audience_name_round_trip(v: PostAudience)
    ensures
        PostAudience::named(v.name()) == Some(v),
{
    lemma_post_audience_names_distinct();
    reveal_strlit("PUBLIC");
    reveal_strlit("FOLLOWERS_ONLY");
    reveal_strlit("CLOSE_FRIENDS");
}

/// Kind of a media attachment.
#[derive(Debug, Clone, Copy, PartialEq, Eq, Hash, Structural)]
pub enum MediaType {
    Image,
    Video,
    Gif,
}

impl MediaType {
    /// The wire name of the value.
    pub open spec fn name(self) -> Seq<char> {
        match self {
            MediaType::Image => "IMAGE"@,
            MediaType::Video => "VIDEO"@,
            MediaType::Gif => "GIF"@,
        }
    }

    /// The value whose wire name is `s`, if any.
    pub open spec fn named(s: Seq<char>) -> Option<Self> {
        if s == "IMAGE"@ {
            Some(MediaType::Image)
        } else if s == "VIDEO"@ {
            Some(MediaType::Video)
        } else if s == "GIF"@ {
            Some(MediaType::Gif)
        } else {
            None
        }
    }

    /// The wire name of the value (such as `"IMAGE"`).
    pub fn as_str(&self) -> (s: &'static str)
        ensures
            s@ == self.name(),
    {
        match self {
            MediaType::Image => "IMAGE",
            MediaType::Video => "VIDEO",
            MediaType::Gif => "GIF",
        }
    }

    /// The value named by `s`; any other text reads as `Image`.
    pub fn parse(s: &str) -> (r: Self)
        ensures
            r == (match Self::named(s@) {
                Some(v) => v,
                None => MediaType::Image,
            }),
    {
        proof {
            lemma_media_type_names_distinct();
        }
        if str_eq(s, "VIDEO") {
            return MediaType::Video;
        }
        if str_eq(s, "GIF") {
            return MediaType::Gif;
        }
        MediaType::Image
    }
}

/// The wire names of `MediaType` are pairwise distinct.
proof fn lemma_media_type_names_distinct()
    ensures
        "IMAGE"@ != "VIDEO"@,
        "IMAGE"@ != "GIF"@,
        "VIDEO"@ != "GIF"@,
{
    reveal_strlit("IMAGE");
    reveal_strlit("VIDEO");
    reveal_strlit("GIF");
    assert("IMAGE"@[0] != "VIDEO"@[0]);
    assert("IMAGE"@.len() != "GIF"@.len());
    assert("VIDEO"@.len() != "GIF"@.len());
}

/// Reading the wire name of a `MediaType` gives the value back.
pub proof fn lemma_media_type_name_round_trip(v: MediaType)
    ensures
        MediaType::named(v.name()) == Some(v),
{
    lemma_media_type_names_distinct();
    reveal_strlit("IMAGE");
    reveal_strlit("VIDEO");
    reveal_strlit("GIF");
}

/// Kind of content a report is about.
#[derive(Debug, Clone, Copy, PartialEq, Eq, Hash, Structural)]
pub enum ReportTargetType {
    Post,
    Comment,
    User,
}

impl ReportTargetType {
    /// The wire name of the value.
    pub open spec fn name(self) -> Seq<char> {
        match self {
            ReportTargetType::Post => "POST"@,
            ReportTargetType::Comment => "COMMENT"@,
            ReportTargetType::User => "USER"@,
        }
    }

    /// The value whose wire name is `s`, if any.
    pub open spec fn named(s: Seq<char>) -> Option<Self> {
        if s == "POST"@ {
            Some(ReportTargetType::Post)
        } else if s == "COMMENT"@ {
            Some(ReportTargetType::Comment)
        } else if s == "USER"@ {
            Some(ReportTargetType::User)
        } else {
            None
        }
    }

    /// The wire name of the value (such as `"POST"`).
    pub fn as_str(&self) -> (s: &'static str)
        ensures
            s@ == self.name(),
    {
        match self {
            ReportTargetType::Post => "POST",
            ReportTargetType::Comment => "COMMENT",
            ReportTargetType::User => "USER",
        }
    }

    /// The value named by `s`; any other text reads as `Post`.
    pub fn parse(s: &str) -> (r: Self)
        ensures
            r == (match Self::named(s@) {
                Some(v) => v,
                None => ReportTargetType::Post,
            }),
    {
        proof {
            lemma_report_target_type_names_distinct();
        }
        if str_eq(s, "COMMENT") {
            return ReportTargetType::Comment;
        }
        if str_eq(s, "USER") {
            return ReportTargetType::User;
        }
        ReportTargetType::Post
    }
}

/// The wire names of `ReportTargetType` are pairwise distinct.
proof fn lemma_report_target_type_names_distinct()
    ensures
        "POST"@ != "COMMENT"@,
        "POST"@ != "USER"@,
        "COMMENT"@ != "USER"@,
{
    reveal_strlit("POST");
    reveal_strlit("COMMENT");
    reveal_strlit("USER");
    assert("POST"@.len() != "COMMENT"@.len());
    assert("POST"@[0] != "USER"@[0]);
    assert("COMMENT"@.len() != "USER"@.len());
}

/// Reading the wire name of a `ReportTargetType` gives the value back.
pub proof fn lemma_report_target_type_name_round_trip(v: ReportTargetType)
    ensures
        ReportTargetType::named(v.name()) == Some(v),
{
    lemma_report_target_type_names_distinct();
    reveal_strlit("POST");
    reveal_strlit("COMMENT");
    reveal_strlit("USER");
}

/// Reason given for a report.
#[derive(Debug, Clone, Copy, PartialEq, Eq, Hash, Structural)]
pub enum ReportReason {
    Spam,
    Harassment,
    HateSpeech,
    Inappropriate,
    Copyright,
    Other,
}

impl ReportReason {
    /// The wire name of the value.
    pub open spec fn name(self) -> Seq<char> {
        match self {
            ReportReason::Spam => "SPAM"@,
            ReportReason::Harassment => "HARASSMENT"@,
            ReportReason::HateSpeech => "HATE_SPEECH"@,
            ReportReason::Inappropriate => "INAPPROPRIATE"@,
            ReportReason::Copyright => "COPYRIGHT"@,
            ReportReason::Other => "OTHER"@,
        }
    }

    /// The value whose wire name is `s`, if any.
    pub open spec fn named(s: Seq<char>) -> Option<Self> {
        if s == "SPAM"@ {
            Some(ReportReason::Spam)
        } else if s == "HARASSMENT"@ {
            Some(ReportReason::Harassment)
        } else if s == "HATE_SPEECH"@ {
            Some(ReportReason::HateSpeech)
        } else if s == "INAPPROPRIATE"@ {
            Some(ReportReason::Inappropriate)
        } else if s == "COPYRIGHT"@ {
            Some(ReportReason::Copyright)
        } else if s == "OTHER"@ {
            Some(ReportReason::Other)
        } else {
            None
        }
    }

    /// The wire name of the value (such as `"SPAM"`).
    pub fn as_str(&self) -> (s: &'static str)
        ensures
            s@ == self.name(),
    {
        match self {
            ReportReason::Spam => "SPAM",
            ReportReason::Harassment => "HARASSMENT",
            ReportReason::HateSpeech => "HATE_SPEECH",
            ReportReason::Inappropriate => "INAPPROPRIATE",
            ReportReason::Copyright => "COPYRIGHT",
            ReportReason::Other => "OTHER",
        }
    }

    /// The value named by `s`; any other text reads as `Spam`.
    pub fn parse(s: &str) -> (r: Self)
        ensures
            r == (match Self::named(s@) {
                Some(v) => v,
                None => ReportReason::Spam,
            }),
    {
        proof {
            lemma_report_reason_names_distinct();
        }
        if str_eq(s, "HARASSMENT") {
            return ReportReason::Harassment;
        }
        if str_eq(s, "HATE_SPEECH") {
            return ReportReason::HateSpeech;
        }
        if str_eq(s, "INAPPROPRIATE") {
            return ReportReason::Inappropriate;
        }
        if str_eq(s, "COPYRIGHT") {
            return ReportReason::Copyright;
        }
        if str_eq(s, "OTHER") {
            return ReportReason::Other;
        }
        ReportReason::Spam
    }
}

/// The wire names of `ReportReason` are pairwise distinct.
proof fn lemma_report_reason_names_distinct()
    ensures
        "SPAM"@ != "HARASSMENT"@,
        "SPAM"@ != "HATE_SPEECH"@,
        "SPAM"@ != "INAPPROPRIATE"@,
        "SPAM"@ != "COPYRIGHT"@,
        "SPAM"@ != "OTHER"@,
        "HARASSMENT"@ != "HATE_SPEECH"@,
        "HARASSMENT"@ != "INAPPROPRIATE"@,
        "HARASSMENT"@ != "COPYRIGHT"@,
        "HARASSMENT"@ != "OTHER"@,
        "HATE_SPEECH"@ != "INAPPROPRIATE"@,
        "HATE_SPEECH"@ != "COPYRIGHT"@,
        "HATE_SPEECH"@ != "OTHER"@,
        "INAPPROPRIATE"@ != "COPYRIGHT"@,
        "INAPPROPRIATE"@ != "OTHER"@,
        "COPYRIGHT"@ != "OTHER"@,
{
    reveal_strlit("SPAM");
    reveal_strlit("HARASSMENT");
    reveal_strlit("HATE_SPEECH");
    reveal_strlit("INAPPROPRIATE");
    reveal_strlit("COPYRIGHT");
    reveal_strlit("OTHER");
    assert("SPAM"@.len() != "HARASSMENT"@.len());
    assert("SPAM"@.len() != "HATE_SPEECH"@.len());
    assert("SPAM"@.len() != "INAPPROPRIATE"@.len());
    assert("SPAM"@.len() != "COPYRIGHT"@.len());
    assert("SPAM"@.len() != "OTHER"@.len());
    assert("HARASSMENT"@.len() != "HATE_SPEECH"@.len());
    assert("HARASSMENT"@.len() != "INAPPROPRIATE"@.len());
    assert("HARASSMENT"@.len() != "COPYRIGHT"@.len());
    assert("HARASSMENT"@.len() != "OTHER"@.len());
    assert("HATE_SPEECH"@.len() != "INAPPROPRIATE"@.len());
    assert("HATE_SPEECH"@.len() != "COPYRIGHT"@.len());
    assert("HATE_SPEECH"@.len() != "OTHER"@.len());
    assert("INAPPROPRIATE"@.len() != "COPYRIGHT"@.len());
    assert("INAPPROPRIATE"@.len() != "OTHER"@.len());
    assert("COPYRIGHT"@.len() != "OTHER"@.len());
}

/// Reading the wire name of a `ReportReason` gives the value back.
pub proof fn lemma_report_reason_name_round_trip(v: ReportReason)
    ensures
        ReportReason::named(v.name()) == Some(v),
{
    lemma_report_reason_names_distinct();
    reveal_strlit("SPAM");
    reveal_strlit("HARASSMENT");
    reveal_strlit("HATE_SPEECH");
    reveal_strlit("INAPPROPRIATE");
    reveal_strlit("COPYRIGHT");
    reveal_strlit("OTHER");
}

/// Moderation state of a report.
#[derive(Debug, Clone, Copy, PartialEq, Eq, Hash, Structural)]
pub enum ReportStatus {
    Pending,
    Resolved,
    Dismissed,
}

impl ReportStatus {
    /// The wire name of the value.
    pub open spec fn name(self) -> Seq<char> {
        match self {
            ReportStatus::Pending => "PENDING"@,
            ReportStatus::Resolved => "RESOLVED"@,
            ReportStatus::Dismissed => "DISMISSED"@,
        }
    }

    /// The value whose wire name is `s`, if any.
    pub open spec fn named(s: Seq<char>) -> Option<Self> {
        if s == "PENDING"@ {
            Some(ReportStatus::Pending)
        } else if s == "RESOLVED"@ {
            Some(ReportStatus::Resolved)
        } else if s == "DISMISSED"@ {
            Some(ReportStatus::Dismissed)
        } else {
            None
        }
    }

    /// The wire name of the value (such as `"PENDING"`).
    pub fn as_str(&self) -> (s: &'static str)
        ensures
            s@ == self.name(),
    {
        match self {
            ReportStatus::Pending => "PENDING",
            ReportStatus::Resolved => "RESOLVED",
            ReportStatus::Dismissed => "DISMISSED",
        }
    }

    /// The value named by `s`; any other text reads as `Pending`.
    pub fn parse(s: &str) -> (r: Self)
        ensures
            r == (match Self::named(s@) {
                Some(v) => v,
                None => ReportStatus::Pending,
            }),
    {
        proof {
            lemma_report_status_names_distinct();
        }
        if str_eq(s, "RESOLVED") {
            return ReportStatus::Resolved;
        }
        if str_eq(s, "DISMISSED") {
            return ReportStatus::Dismissed;
        }
        ReportStatus::Pending
    }
}

/// The wire names of `ReportStatus` are pairwise distinct.
proof fn lemma_report_status_names_distinct()
    ensures
        "PENDING"@ != "RESOLVED"@,
        "PENDING"@ != "DISMISSED"@,
        "RESOLVED"@ != "DISMISSED"@,
{
    reveal_strlit("PENDING");
    reveal_strlit("RESOLVED");
    reveal_strlit("DISMISSED");
    assert("PENDING"@.len() != "RESOLVED"@.len());
    assert("PENDING"@.len() != "DISMISSED"@.len());
    assert("RESOLVED"@.len() != "DISMISSED"@.len());
}

/// Reading the wire name of a `ReportStatus` gives the value back.
pub proof fn lemma_report_status_name_round_trip(v: ReportStatus)
    ensures
        ReportStatus::named(v.name()) == Some(v),
{
    lemma_report_status_names_distinct();
    reveal_strlit("PENDING");
    reveal_strlit("RESOLVED");
    reveal_strlit("DISMISSED");
}

/// State of a follow request to a private account.
#[derive(Debug, Clone, Copy, PartialEq, Eq, Hash, Structural)]
pub enum FollowRequestStatus {
    Pending,
    Accepted,
    Rejected,
}

impl FollowRequestStatus {
    /// The wire name of the value.
    pub open spec fn name(self) -> Seq<char> {
        match self {
            FollowRequestStatus::Pending => "PENDING"@,
            FollowRequestStatus::Accepted => "ACCEPTED"@,
            FollowRequestStatus::Rejected => "REJECTED"@,
        }
    }

    /// The value whose wire name is `s`, if any.
    pub open spec fn named(s: Seq<char>) -> Option<Self> {
        if s == "PENDING"@ {
            Some(FollowRequestStatus::Pending)
        } else if s == "ACCEPTED"@ {
            Some(FollowRequestStatus::Accepted)
        } else if s == "REJECTED"@ {
            Some(FollowRequestStatus::Rejected)
        } else {
            None
        }
    }

    /// The wire name of the value (such as `"PENDING"`).
    pub fn as_str(&self) -> (s: &'static str)
        ensures
            s@ == self.name(),
    {
        match self {
            FollowRequestStatus::Pending => "PENDING",
            FollowRequestStatus::Accepted => "ACCEPTED",
            FollowRequestStatus::Rejected => "REJECTED",
        }
    }

    /// The value named by `s`, or `None` for any other text.
    pub fn parse(s: &str) -> (r: Option<Self>)
        ensures
            r == Self::named(s@),
    {
        proof {
            lemma_follow_request_status_names_distinct();
        }
        if str_eq(s, "PENDING") {
            return Some(FollowRequestStatus::Pending);
        }
        if str_eq(s, "ACCEPTED") {
            return Some(FollowRequestStatus::Accepted);
        }
        if str_eq(s, "REJECTED") {
            return Some(FollowRequestStatus::Rejected);
        }
        None
    }
}

/// The wire names of `FollowRequestStatus` are pairwise distinct.
proof fn lemma_follow_request_status_names_distinct()
    ensures
        "PENDING"@ != "ACCEPTED"@,
        "PENDING"@ != "REJECTED"@,
        "ACCEPTED"@ != "REJECTED"@,
{
    reveal_strlit("PENDING");
    reveal_strlit("ACCEPTED");
    reveal_strlit("REJECTED");
    assert("PENDING"@.len() != "ACCEPTED"@.len());
    assert("PENDING"@.len() != "REJECTED"@.len());
    assert("ACCEPTED"@[0] != "REJECTED"@[0]);
}

/// Reading the wire name of a `FollowRequestStatus` gives the value back.
pub proof fn lemma_follow_request_status_name_round_trip(v: FollowRequestStatus)
    ensures
        FollowRequestStatus::named(v.name()) == Some(v),
{
    lemma_follow_request_status_names_distinct();
    reveal_strlit("PENDING");
    reveal_strlit("ACCEPTED");
    reveal_strlit("REJECTED");
}

/// What a notification reports.
#[derive(Debug, Clone, Copy, PartialEq, Eq, Hash, Structural)]
pub enum NotificationType {
    LikePost,
    CommentPost,
    Follow,
    ReplyComment,
    Repost,
    Quote,
    Mention,
    FollowRequest,
    FollowAccepted,
    LikeComment,
    PollEnded,
}

impl NotificationType {
    /// The wire name of the value.
    pub open spec fn name(self) -> Seq<char> {
        match self {
            NotificationType::LikePost => "LIKE_POST"@,
            NotificationType::CommentPost => "COMMENT_POST"@,
            NotificationType::Follow => "FOLLOW"@,
            NotificationType::ReplyComment => "REPLY_COMMENT"@,
            NotificationType::Repost => "REPOST"@,
            NotificationType::Quote => "QUOTE"@,
            NotificationType::Mention => "MENTION"@,
            NotificationType::FollowRequest => "FOLLOW_REQUEST"@,
            NotificationType::FollowAccepted => "FOLLOW_ACCEPTED"@,
            NotificationType::LikeComment => "LIKE_COMMENT"@,
            NotificationType::PollEnded => "POLL_ENDED"@,
        }
    }

    /// The value whose wire name is `s`, if any.
    pub open spec fn named(s: Seq<char>) -> Option<Self> {
        if s == "LIKE_POST"@ {
            Some(NotificationType::LikePost)
        } else if s == "COMMENT_POST"@ {
            Some(NotificationType::CommentPost)
        } else if s == "FOLLOW"@ {
            Some(NotificationType::Follow)
        } else if s == "REPLY_COMMENT"@ {
            Some(NotificationType::ReplyComment)
        } else if s == "REPOST"@ {
            Some(NotificationType::Repost)
        } else if s == "QUOTE"@ {
            Some(NotificationType::Quote)
        } else if s == "MENTION"@ {
            Some(NotificationType::Mention)
        } else if s == "FOLLOW_REQUEST"@ {
            Some(NotificationType::FollowRequest)
        } else if s == "FOLLOW_ACCEPTED"@ {
            Some(NotificationType::FollowAccepted)
        } else if s == "LIKE_COMMENT"@ {
            Some(NotificationType::LikeComment)
        } else if s == "POLL_ENDED"@ {
            Some(NotificationType::PollEnded)
        } else {
            None
        }
    }

    /// The wire name of the value (such as `"LIKE_POST"`).
    pub fn as_str(&self) -> (s: &'static str)
        ensures
            s@ == self.name(),
    {
        match self {
            NotificationType::LikePost => "LIKE_POST",
            NotificationType::CommentPost => "COMMENT_POST",
            NotificationType::Follow => "FOLLOW",
            NotificationType::ReplyComment => "REPLY_COMMENT",
            NotificationType::Repost => "REPOST",
            NotificationType::Quote => "QUOTE",
            NotificationType::Mention => "MENTION",
            NotificationType::FollowRequest => "FOLLOW_REQUEST",
            NotificationType::FollowAccepted => "FOLLOW_ACCEPTED",
            NotificationType::LikeComment => "LIKE_COMMENT",
            NotificationType::PollEnded => "POLL_ENDED",
        }
    }

    /// The value named by `s`, or `None` for any other text.
    pub fn parse(s: &str) -> (r: Option<Self>)
        ensures
            r == Self::named(s@),
    {
        proof {
            lemma_notification_type_names_distinct();
        }
        if str_eq(s, "LIKE_POST") {
            return Some(NotificationType::LikePost);
        }
        if str_eq(s, "COMMENT_POST") {
            return Some(NotificationType::CommentPost);
        }
        if str_eq(s, "FOLLOW") {
            return Some(NotificationType::Follow);
        }
        if str_eq(s, "REPLY_COMMENT") {
            return Some(NotificationType::ReplyComment);
        }
        if str_eq(s, "REPOST") {
            return Some(NotificationType::Repost);
        }
        if str_eq(s, "QUOTE") {
            return Some(NotificationType::Quote);
        }
        if str_eq(s, "MENTION") {
            return Some(NotificationType::Mention);
        }
        if str_eq(s, "FOLLOW_REQUEST") {
            return Some(NotificationType::FollowRequest);
        }
        if str_eq(s, "FOLLOW_ACCEPTED") {
            return Some(NotificationType::FollowAccepted);
        }
        if str_eq(s, "LIKE_COMMENT") {
            return Some(NotificationType::LikeComment);
        }
        if str_eq(s, "POLL_ENDED") {
            return Some(NotificationType::PollEnded);
        }
        None
    }
}

/// The wire names of `NotificationType` are pairwise distinct.
proof fn lemma_notification_type_names_distinct()
    ensures
        "LIKE_POST"@ != "COMMENT_POST"@,
        "LIKE_POST"@ != "FOLLOW"@,
        "LIKE_POST"@ != "REPLY_COMMENT"@,
        "LIKE_POST"@ != "REPOST"@,
        "LIKE_POST"@ != "QUOTE"@,
        "LIKE_POST"@ != "MENTION"@,
        "LIKE_POST"@ != "FOLLOW_REQUEST"@,
        "LIKE_POST"@ != "FOLLOW_ACCEPTED"@,
        "LIKE_POST"@ != "LIKE_COMMENT"@,
        "LIKE_POST"@ != "POLL_ENDED"@,
        "COMMENT_POST"@ != "FOLLOW"@,
        "COMMENT_POST"@ != "REPLY_COMMENT"@,
        "COMMENT_POST"@ != "REPOST"@,
        "COMMENT_POST"@ != "QUOTE"@,
        "COMMENT_POST"@ != "MENTION"@,
        "COMMENT_POST"@ != "FOLLOW_REQUEST"@,
        "COMMENT_POST"@ != "FOLLOW_ACCEPTED"@,
        "COMMENT_POST"@ != "LIKE_COMMENT"@,
        "COMMENT_POST"@ != "POLL_ENDED"@,
        "FOLLOW"@ != "REPLY_COMMENT"@,
        "FOLLOW"@ != "REPOST"@,
        "FOLLOW"@ != "QUOTE"@,
        "FOLLOW"@ != "MENTION"@,
        "FOLLOW"@ != "FOLLOW_REQUEST"@,
        "FOLLOW"@ != "FOLLOW_ACCEPTED"@,
        "FOLLOW"@ != "LIKE_COMMENT"@,
        "FOLLOW"@ != "POLL_ENDED"@,
        "REPLY_COMMENT"@ != "REPOST"@,
        "REPLY_COMMENT"@ != "QUOTE"@,
        "REPLY_COMMENT"@ != "MENTION"@,
        "REPLY_COMMENT"@ != "FOLLOW_REQUEST"@,
        "REPLY_COMMENT"@ != "FOLLOW_ACCEPTED"@,
        "REPLY_COMMENT"@ != "LIKE_COMMENT"@,
        "REPLY_COMMENT"@ != "POLL_ENDED"@,
        "REPOST"@ != "QUOTE"@,
        "REPOST"@ != "MENTION"@,
        "REPOST"@ != "FOLLOW_REQUEST"@,
        "REPOST"@ != "FOLLOW_ACCEPTED"@,
        "REPOST"@ != "LIKE_COMMENT"@,
        "REPOST"@ != "POLL_ENDED"@,
        "QUOTE"@ != "MENTION"@,
        "QUOTE"@ != "FOLLOW_REQUEST"@,
        "QUOTE"@ != "FOLLOW_ACCEPTED"@,
        "QUOTE"@ != "LIKE_COMMENT"@,
        "QUOTE"@ != "POLL_ENDED"@,
        "MENTION"@ != "FOLLOW_REQUEST"@,
        "MENTION"@ != "FOLLOW_ACCEPTED"@,
        "MENTION"@ != "LIKE_COMMENT"@,
        "MENTION"@ != "POLL_ENDED"@,
        "FOLLOW_REQUEST"@ != "FOLLOW_ACCEPTED"@,
        "FOLLOW_REQUEST"@ != "LIKE_COMMENT"@,
        "FOLLOW_REQUEST"@ != "POLL_ENDED"@,
        "FOLLOW_ACCEPTED"@ != "LIKE_COMMENT"@,
        "FOLLOW_ACCEPTED"@ != "POLL_ENDED"@,
        "LIKE_COMMENT"@ != "POLL_ENDED"@,
{
    reveal_strlit("LIKE_POST");
    reveal_strlit("COMMENT_POST");
    reveal_strlit("FOLLOW");
    reveal_strlit("REPLY_COMMENT");
    reveal_strlit("REPOST");
    reveal_strlit("QUOTE");
    reveal_strlit("MENTION");
    reveal_strlit("FOLLOW_REQUEST");
    reveal_strlit("FOLLOW_ACCEPTED");
    reveal_strlit("LIKE_COMMENT");
    reveal_strlit("POLL_ENDED");
    assert("LIKE_POST"@.len() != "COMMENT_POST"@.len());
    assert("LIKE_POST"@.len() != "FOLLOW"@.len());
    assert("LIKE_POST"@.len() != "REPLY_COMMENT"@.len());
    assert("LIKE_POST"@.len() != "REPOST"@.len());
    assert("LIKE_POST"@.len() != "QUOTE"@.len());
    assert("LIKE_POST"@.len() != "MENTION"@.len());
    assert("LIKE_POST"@.len() != "FOLLOW_REQUEST"@.len());
    assert("LIKE_POST"@.len() != "FOLLOW_ACCEPTED"@.len());
    assert("LIKE_POST"@.len() != "LIKE_COMMENT"@.len());
    assert("LIKE_POST"@.len() != "POLL_ENDED"@.len());
    assert("COMMENT_POST"@.len() != "FOLLOW"@.len());
    assert("COMMENT_POST"@.len() != "REPLY_COMMENT"@.len());
    assert("COMMENT_POST"@.len() != "REPOST"@.len());
    assert("COMMENT_POST"@.len() != "QUOTE"@.len());
    assert("COMMENT_POST"@.len() != "MENTION"@.len());
    assert("COMMENT_POST"@.len() != "FOLLOW_REQUEST"@.len());
    assert("COMMENT_POST"@.len() != "FOLLOW_ACCEPTED"@.len());
    assert("COMMENT_POST"@[0] != "LIKE_COMMENT"@[0]);
    assert("COMMENT_POST"@.len() != "POLL_ENDED"@.len());
    assert("FOLLOW"@.len() != "REPLY_COMMENT"@.len());
    assert("FOLLOW"@[0] != "REPOST"@[0]);
    assert("FOLLOW"@.len() != "QUOTE"@.len());
    assert("FOLLOW"@.len() != "MENTION"@.len());
    assert("FOLLOW"@.len() != "FOLLOW_REQUEST"@.len());
    assert("FOLLOW"@.len() != "FOLLOW_ACCEPTED"@.len());
    assert("FOLLOW"@.len() != "LIKE_COMMENT"@.len());
    assert("FOLLOW"@.len() != "POLL_ENDED"@.len());
    assert("REPLY_COMMENT"@.len() != "REPOST"@.len());
    assert("REPLY_COMMENT"@.len() != "QUOTE"@.len());
    assert("REPLY_COMMENT"@.len() != "MENTION"@.len());
    assert("REPLY_COMMENT"@.len() != "FOLLOW_REQUEST"@.len());
    assert("REPLY_COMMENT"@.len() != "FOLLOW_ACCEPTED"@.len());
    assert("REPLY_COMMENT"@.len() != "LIKE_COMMENT"@.len());
    assert("REPLY_COMMENT"@.len() != "POLL_ENDED"@.len());
    assert("REPOST"@.len() != "QUOTE"@.len());
    assert("REPOST"@.len() != "MENTION"@.len());
    assert("REPOST"@.len() != "FOLLOW_REQUEST"@.len());
    assert("REPOST"@.len() != "FOLLOW_ACCEPTED"@.len());
    assert("REPOST"@.len() != "LIKE_COMMENT"@.len());
    assert("REPOST"@.len() != "POLL_ENDED"@.len());
    assert("QUOTE"@.len() != "MENTION"@.len());
    assert("QUOTE"@.len() != "FOLLOW_REQUEST"@.len());
    assert("QUOTE"@.len() != "FOLLOW_ACCEPTED"@.len());
    assert("QUOTE"@.len() != "LIKE_COMMENT"@.len());
    assert("QUOTE"@.len() != "POLL_ENDED"@.len());
    assert("MENTION"@.len() != "FOLLOW_REQUEST"@.len());
    assert("MENTION"@.len() != "FOLLOW_ACCEPTED"@.len());
    assert("MENTION"@.len() != "LIKE_COMMENT"@.len());
    assert("MENTION"@.len() != "POLL_ENDED"@.len());
    assert("FOLLOW_REQUEST"@.len() != "FOLLOW_ACCEPTED"@.len());
    assert("FOLLOW_REQUEST"@.len() != "LIKE_COMMENT"@.len());
    assert("FOLLOW_REQUEST"@.len() != "POLL_ENDED"@.len());
    assert("FOLLOW_ACCEPTED"@.len() != "LIKE_COMMENT"@.len());
    assert("FOLLOW_ACCEPTED"@.len() != "POLL_ENDED"@.len());
    assert("LIKE_COMMENT"@.len() != "POLL_ENDED"@.len());
}

/// Reading the wire name of a `NotificationType` gives the value back.
pub proof fn lemma_notification_type_name_round_trip(v: NotificationType)
    ensures
        NotificationType::named(v.name()) == Some(v),
{
    lemma_notification_type_names_distinct();
    reveal_strlit("LIKE_POST");
    reveal_strlit("COMMENT_POST");
    reveal_strlit("FOLLOW");
    reveal_strlit("REPLY_COMMENT");
    reveal_strlit("REPOST");
    reveal_strlit("QUOTE");
    reveal_strlit("MENTION");
    reveal_strlit("FOLLOW_REQUEST");
    reveal_strlit("FOLLOW_ACCEPTED");
    reveal_strlit("LIKE_COMMENT");
    reveal_strlit("POLL_ENDED");
}

impl core::str::FromStr for PostAudience {
    type Err = core::convert::Infallible;

    fn from_str(s: &str) -> (r: Result<Self, Self::Err>)
        ensures
            r matches Ok(v) && v == (match Self::named(s@) {
                Some(v) => v,
                None => PostAudience::Public,
            }),
    {
        Ok(Self::parse(s))
    }
}

impl core::str::FromStr for MediaType {
    type Err = core::convert::Infallible;

    fn from_str(s: &str) -> (r: Result<Self, Self::Err>)
        ensures
            r matches Ok(v) && v == (match Self::named(s@) {
                Some(v) => v,
                None => MediaType::Image,
            }),
    {
        Ok(Self::parse(s))
    }
}

impl core::str::FromStr for ReportTargetType {
    type Err = core::convert::Infallible;

    fn from_str(s: &str) -> (r: Result<Self, Self::Err>)
        ensures
            r matches Ok(v) && v == (match Self::named(s@) {
                Some(v) => v,
                None => ReportTargetType::Post,
            }),
    {
        Ok(Self::parse(s))
    }
}

impl core::str::FromStr for ReportReason {
    type Err = core::convert::Infallible;

    fn from_str(s: &str) -> (r: Result<Self, Self::Err>)
        ensures
            r matches Ok(v) && v == (match Self::named(s@) {
                Some(v) => v,
                None => ReportReason::Spam,
            }),
    {
        Ok(Self::parse(s))
    }
}

impl core::str::FromStr for ReportStatus {
    type Err = core::convert::Infallible;

    fn from_str(s: &str) -> (r: Result<Self, Self::Err>)
        ensures
            r matches Ok(v) && v == (match Self::named(s@) {
                Some(v) => v,
                None => ReportStatus::Pending,
            }),
    {
        Ok(Self::parse(s))
    }
}

impl core::str::FromStr for FollowRequestStatus {
    type Err = ();

    fn from_str(s: &str) -> (r: Result<Self, Self::Err>)
        ensures
            match Self::named(s@) {
                Some(v) => r == Ok::<Self, ()>(v),
                None => r == Err::<Self, ()>(()),
            },
    {
        match Self::parse(s) {
            Some(v) => Ok(v),
            None => Err(()),
        }
    }
}

impl core::str::FromStr for NotificationType {
    type Err = ();

    fn from_str(s: &str) -> (r: Result<Self, Self::Err>)
        ensures
            match Self::named(s@) {
                Some(v) => r == Ok::<Self, ()>(v),
                None => r == Err::<Self, ()>(()),
            },
    {
        match Self::parse(s) {
            Some(v) => Ok(v),
            None => Err(()),
        }
    }
}

/// A registered account.
#[derive(Debug, Clone)]
pub struct User {
    pub id: u128,
    pub username: String,
    pub email: String,
    pub password_hash: String,
    pub display_name: String,
    pub bio: Option<String>,
    pub avatar_url: Option<String>,
    pub header_image_url: Option<String>,
    pub location: Option<String>,
    pub website: Option<String>,
    pub is_private: bool,
    pub is_2fa_enabled: bool,
    pub totp_secret: Option<String>,
    pub created_at: Timestamp,
}

/// A post, possibly quoting another one.
#[derive(Debug, Clone)]
pub struct Post {
    pub id: u128,
    pub author_id: u128,
    pub content: String,
    pub quote_post_id: Option<u128>,
    pub pinned_comment_id: Option<u128>,
    pub audience: PostAudience,
    pub views_count: i64,
    pub created_at: Timestamp,
}

/// A media file attached to a post.
#[derive(Debug, Clone)]
pub struct PostMedia {
    pub id: u128,
    pub post_id: u128,
    pub media_url: String,
    pub media_type: MediaType,
    pub alt_text: Option<String>,
    pub sort_order: i32,
    pub width: Option<i32>,
    pub height: Option<i32>,
    pub created_at: Timestamp,
}

/// A poll attached to a post.
#[derive(Debug, Clone)]
pub struct Poll {
    pub id: u128,
    pub post_id: u128,
    pub question: String,
    pub expires_at: Timestamp,
    pub created_at: Timestamp,
}

/// One of the options of a poll.
#[derive(Debug, Clone)]
pub struct PollOption {
    pub id: u128,
    pub poll_id: u128,
    pub option_text: String,
    pub sort_order: i32,
}

/// A user's vote on a poll.
#[derive(Debug, Clone)]
pub struct PollVote {
    pub poll_id: u128,
    pub option_id: u128,
    pub user_id: u128,
    pub created_at: Timestamp,
}

/// A named list of accounts curated by its owner.
#[derive(Debug, Clone)]
pub struct UserList {
    pub id: u128,
    pub owner_id: u128,
    pub name: String,
    pub description: Option<String>,
    pub is_private: bool,
    pub created_at: Timestamp,
}

/// A named collection of saved posts.
#[derive(Debug, Clone)]
pub struct BookmarkCollection {
    pub id: u128,
    pub user_id: u128,
    pub name: String,
    pub description: Option<String>,
    pub is_private: bool,
    pub created_at: Timestamp,
    pub updated_at: Timestamp,
}

/// A moderation report on a post, comment or user.
#[derive(Debug, Clone)]
pub struct Report {
    pub id: u128,
    pub reporter_id: u128,
    pub target_type: ReportTargetType,
    pub target_id: u128,
    pub reason: ReportReason,
    pub details: Option<String>,
    pub status: ReportStatus,
    pub created_at: Timestamp,
    pub updated_at: Timestamp,
}

/// A comment on a post, or a reply to another comment.
#[derive(Debug, Clone)]
pub struct Comment {
    pub id: u128,
    pub post_id: u128,
    pub author_id: u128,
    pub parent_id: Option<u128>,
    pub content: String,
    pub is_edited: bool,
    pub created_at: Timestamp,
    pub updated_at: Timestamp,
}

/// A story, visible until it expires.
#[derive(Debug, Clone)]
pub struct Story {
    pub id: u128,
    pub author_id: u128,
    pub media_url: String,
    pub caption: Option<String>,
    pub created_at: Timestamp,
    pub expires_at: Timestamp,
}

/// A direct message, either to one user or to a group conversation.
#[derive(Debug, Clone)]
pub struct DirectMessage {
    pub id: u128,
    pub sender_id: u128,
    pub recipient_id: u128,
    pub conversation_id: Option<u128>,
    pub content: String,
    pub is_read: bool,
    pub is_edited: bool,
    pub created_at: Timestamp,
}

/// A group conversation.
#[derive(Debug, Clone)]
pub struct Conversation {
    pub id: u128,
    pub is_group: bool,
    pub title: Option<String>,
    pub created_by: Option<u128>,
    pub created_at: Timestamp,
    pub updated_at: Timestamp,
}

/// The last message of a one-to-one conversation and its unread count.
#[derive(Debug, Clone)]
pub struct ConversationSummary {
    pub other_user: User,
    pub last_message: DirectMessage,
    pub unread_count: i64,
}

/// A request to follow a private account.
#[derive(Debug, Clone)]
pub struct FollowRequest {
    pub id: u128,
    pub requester_id: u128,
    pub target_id: u128,
    pub status: FollowRequestStatus,
    pub created_at: Timestamp,
}

/// A typing indicator, for a group conversation or for a direct chat.
#[derive(Debug, Clone, Copy, PartialEq, Eq, Structural)]
pub struct TypingEvent {
    pub user_id: u128,
    pub conversation_id: Option<u128>,
    pub recipient_id: Option<u128>,
    pub is_typing: bool,
}

/// A notification of something another user did.
#[derive(Debug, Clone)]
pub struct Notification {
    pub id: u128,
    pub recipient_id: u128,
    pub actor_id: u128,
    pub notification_type: NotificationType,
    pub entity_id: Option<u128>,
    pub is_read: bool,
    pub created_at: Timestamp,
}

} // verus!
