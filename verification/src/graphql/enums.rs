//! GraphQL enumerations and their one-to-one correspondence with the
//! domain enumerations.

use vstd::prelude::*;
use vstd::std_specs::convert::FromSpecImpl;
use crate::domain::models::{
    FollowRequestStatus, MediaType, NotificationType, PostAudience, ReportReason, ReportStatus,
    ReportTargetType,
};

verus! {

/// The GraphQL form of [`MediaType`].
#[derive(Debug, Clone, Copy, PartialEq, Eq, Structural)]
pub enum MediaTypeGql {
    Image,
    Video,
    Gif,
}

impl MediaTypeGql {
    /// The GraphQL value of a domain value.
    pub open spec fn of_model(m: MediaType) -> MediaTypeGql {
        match m {
            MediaType::Image => MediaTypeGql::Image,
            MediaType::Video => MediaTypeGql::Video,
            MediaType::Gif => MediaTypeGql::Gif,
        }
    }

    /// The domain value of a GraphQL value.
    pub open spec fn model(self) -> MediaType {
        match self {
            MediaTypeGql::Image => MediaType::Image,
            MediaTypeGql::Video => MediaType::Video,
            MediaTypeGql::Gif => MediaType::Gif,
        }
    }
}

impl From<MediaType> for MediaTypeGql {
    fn from(m: MediaType) -> (r: MediaTypeGql) {
        match m {
            MediaType::Image => MediaTypeGql::Image,
            MediaType::Video => MediaTypeGql::Video,
            MediaType::Gif => MediaTypeGql::Gif,
        }
    }
}

impl FromSpecImpl<MediaType> for MediaTypeGql {
    open spec fn obeys_from_spec() -> bool {
        true
    }

    open spec fn from_spec(v: MediaType) -> MediaTypeGql {
        MediaTypeGql::of_model(v)
    }
}

impl From<MediaTypeGql> for MediaType {
    fn from(g: MediaTypeGql) -> (r: MediaType) {
        match g {
            MediaTypeGql::Image => MediaType::Image,
            MediaTypeGql::Video => MediaType::Video,
            MediaTypeGql::Gif => MediaType::Gif,
        }
    }
}

impl FromSpecImpl<MediaTypeGql> for MediaType {
    open spec fn obeys_from_spec() -> bool {
        true
    }

    open spec fn from_spec(v: MediaTypeGql) -> MediaType {
        v.model()
    }
}

/// Converting a `MediaType` to its GraphQL form and back gives it back, and
/// the other way round.
pub proof fn lemma_media_type_gql_round_trip(m: MediaType, g: MediaTypeGql)
    ensures
        MediaTypeGql::of_model(m).model() == m,
        MediaTypeGql::of_model(g.model()) == g,
{
}


/// The GraphQL form of [`PostAudience`].
#[derive(Debug, Clone, Copy, PartialEq, Eq, Structural)]
pub enum PostAudienceGql {
    Public,
    FollowersOnly,
    CloseFriends,
}

impl PostAudienceGql {
    /// The GraphQL value of a domain value.
    pub open spec fn of_model(m: PostAudience) -> PostAudienceGql {
        match m {
            PostAudience::Public => PostAudienceGql::Public,
            PostAudience::FollowersOnly => PostAudienceGql::FollowersOnly,
            PostAudience::CloseFriends => PostAudienceGql::CloseFriends,
        }
    }

    /// The domain value of a GraphQL value.
    pub open spec fn model(self) -> PostAudience {
        match self {
            PostAudienceGql::Public => PostAudience::Public,
            PostAudienceGql::FollowersOnly => PostAudience::FollowersOnly,
            PostAudienceGql::CloseFriends => PostAudience::CloseFriends,
        }
    }
}

impl From<PostAudience> for PostAudienceGql {
    fn from(m: PostAudience) -> (r: PostAudienceGql) {
        match m {
            PostAudience::Public => PostAudienceGql::Public,
            PostAudience::FollowersOnly => PostAudienceGql::FollowersOnly,
            PostAudience::CloseFriends => PostAudienceGql::CloseFriends,
        }
    }
}

impl FromSpecImpl<PostAudience> for PostAudienceGql {
    open spec fn obeys_from_spec() -> bool {
        true
    }

    open spec fn from_spec(v: PostAudience) -> PostAudienceGql {
        PostAudienceGql::of_model(v)
    }
}

impl From<PostAudienceGql> for PostAudience {
    fn from(g: PostAudienceGql) -> (r: PostAudience) {
        match g {
            PostAudienceGql::Public => PostAudience::Public,
            PostAudienceGql::FollowersOnly => PostAudience::FollowersOnly,
            PostAudienceGql::CloseFriends => PostAudience::CloseFriends,
        }
    }
}

impl FromSpecImpl<PostAudienceGql> for PostAudience {
    open spec fn obeys_from_spec() -> bool {
        true
    }

    open spec fn from_spec(v: PostAudienceGql) -> PostAudience {
        v.model()
    }
}

/// Converting a `PostAudience` to its GraphQL form and back gives it back, and
/// the other way round.
pub proof fn lemma_post_audience_gql_round_trip(m: PostAudience, g: PostAudienceGql)
    ensures
        PostAudienceGql::of_model(m).model() == m,
        PostAudienceGql::of_model(g.model()) == g,
{
}


/// The GraphQL form of [`ReportTargetType`].
#[derive(Debug, Clone, Copy, PartialEq, Eq, Structural)]
pub enum ReportTargetTypeGql {
    Post,
    Comment,
    User,
}

impl ReportTargetTypeGql {
    /// The GraphQL value of a domain value.
    pub open spec fn of_model(m: ReportTargetType) -> ReportTargetTypeGql {
        match m {
            ReportTargetType::Post => ReportTargetTypeGql::Post,
            ReportTargetType::Comment => ReportTargetTypeGql::Comment,
            ReportTargetType::User => ReportTargetTypeGql::User,
        }
    }

    /// The domain value of a GraphQL value.
    pub open spec fn model(self) -> ReportTargetType {
        match self {
            ReportTargetTypeGql::Post => ReportTargetType::Post,
            ReportTargetTypeGql::Comment => ReportTargetType::Comment,
            ReportTargetTypeGql::User => ReportTargetType::User,
        }
    }
}

impl From<ReportTargetType> for ReportTargetTypeGql {
    fn from(m: ReportTargetType) -> (r: ReportTargetTypeGql) {
        match m {
            ReportTargetType::Post => ReportTargetTypeGql::Post,
            ReportTargetType::Comment => ReportTargetTypeGql::Comment,
            ReportTargetType::User => ReportTargetTypeGql::User,
        }
    }
}

impl FromSpecImpl<ReportTargetType> for ReportTargetTypeGql {
    open spec fn obeys_from_spec() -> bool {
        true
    }

    open spec fn from_spec(v: ReportTargetType) -> ReportTargetTypeGql {
        ReportTargetTypeGql::of_model(v)
    }
}

impl From<ReportTargetTypeGql> for ReportTargetType {
    fn from(g: ReportTargetTypeGql) -> (r: ReportTargetType) {
        match g {
            ReportTargetTypeGql::Post => ReportTargetType::Post,
            ReportTargetTypeGql::Comment => ReportTargetType::Comment,
            ReportTargetTypeGql::User => ReportTargetType::User,
        }
    }
}

impl FromSpecImpl<ReportTargetTypeGql> for ReportTargetType {
    open spec fn obeys_from_spec() -> bool {
        true
    }

    open spec fn from_spec(v: ReportTargetTypeGql) -> ReportTargetType {
        v.model()
    }
}

/// Converting a `ReportTargetType` to its GraphQL form and back gives it back, and
/// the other way round.
pub proof fn lemma_report_target_type_gql_round_trip(m: ReportTargetType, g: ReportTargetTypeGql)
    ensures
        ReportTargetTypeGql::of_model(m).model() == m,
        ReportTargetTypeGql::of_model(g.model()) == g,
{
}


/// The GraphQL form of [`ReportReason`].
#[derive(Debug, Clone, Copy, PartialEq, Eq, Structural)]
pub enum ReportReasonGql {
    Spam,
    Harassment,
    HateSpeech,
    Inappropriate,
    Copyright,
    Other,
}

impl ReportReasonGql {
    /// The GraphQL value of a domain value.
    pub open spec fn of_model(m: ReportReason) -> ReportReasonGql {
        match m {
            ReportReason::Spam => ReportReasonGql::Spam,
            ReportReason::Harassment => ReportReasonGql::Harassment,
            ReportReason::HateSpeech => ReportReasonGql::HateSpeech,
            ReportReason::Inappropriate => ReportReasonGql::Inappropriate,
            ReportReason::Copyright => ReportReasonGql::Copyright,
            ReportReason::Other => ReportReasonGql::Other,
        }
    }

    /// The domain value of a GraphQL value.
    pub open spec fn model(self) -> ReportReason {
        match self {
            ReportReasonGql::Spam => ReportReason::Spam,
            ReportReasonGql::Harassment => ReportReason::Harassment,
            ReportReasonGql::HateSpeech => ReportReason::HateSpeech,
            ReportReasonGql::Inappropriate => ReportReason::Inappropriate,
            ReportReasonGql::Copyright => ReportReason::Copyright,
            ReportReasonGql::Other => ReportReason::Other,
        }
    }
}

impl From<ReportReason> for ReportReasonGql {
    fn from(m: ReportReason) -> (r: ReportReasonGql) {
        match m {
            ReportReason::Spam => ReportReasonGql::Spam,
            ReportReason::Harassment => ReportReasonGql::Harassment,
            ReportReason::HateSpeech => ReportReasonGql::HateSpeech,
            ReportReason::Inappropriate => ReportReasonGql::Inappropriate,
            ReportReason::Copyright => ReportReasonGql::Copyright,
            ReportReason::Other => ReportReasonGql::Other,
        }
    }
}

impl FromSpecImpl<ReportReason> for ReportReasonGql {
    open spec fn obeys_from_spec() -> bool {
        true
    }

    open spec fn from_spec(v: ReportReason) -> ReportReasonGql {
        ReportReasonGql::of_model(v)
    }
}

impl From<ReportReasonGql> for ReportReason {
    fn from(g: ReportReasonGql) -> (r: ReportReason) {
        match g {
            ReportReasonGql::Spam => ReportReason::Spam,
            ReportReasonGql::Harassment => ReportReason::Harassment,
            ReportReasonGql::HateSpeech => ReportReason::HateSpeech,
            ReportReasonGql::Inappropriate => ReportReason::Inappropriate,
            ReportReasonGql::Copyright => ReportReason::Copyright,
            ReportReasonGql::Other => ReportReason::Other,
        }
    }
}

impl FromSpecImpl<ReportReasonGql> for ReportReason {
    open spec fn obeys_from_spec() -> bool {
        true
    }

    open spec fn from_spec(v: ReportReasonGql) -> ReportReason {
        v.model()
    }
}

/// Converting a `ReportReason` to its GraphQL form and back gives it back, and
/// the other way round.
pub proof fn lemma_report_reason_gql_round_trip(m: ReportReason, g: ReportReasonGql)
    ensures
        ReportReasonGql::of_model(m).model() == m,
        ReportReasonGql::of_model(g.model()) == g,
{
}


/// The GraphQL form of [`ReportStatus`].
#[derive(Debug, Clone, Copy, PartialEq, Eq, Structural)]
pub enum ReportStatusGql {
    Pending,
    Resolved,
    Dismissed,
}

impl ReportStatusGql {
    /// The GraphQL value of a domain value.
    pub open spec fn of_model(m: ReportStatus) -> ReportStatusGql {
        match m {
            ReportStatus::Pending => ReportStatusGql::Pending,
            ReportStatus::Resolved => ReportStatusGql::Resolved,
            ReportStatus::Dismissed => ReportStatusGql::Dismissed,
        }
    }

    /// The domain value of a GraphQL value.
    pub open spec fn model(self) -> ReportStatus {
        match self {
            ReportStatusGql::Pending => ReportStatus::Pending,
            ReportStatusGql::Resolved => ReportStatus::Resolved,
            ReportStatusGql::Dismissed => ReportStatus::Dismissed,
        }
    }
}

impl From<ReportStatus> for ReportStatusGql {
    fn from(m: ReportStatus) -> (r: ReportStatusGql) {
        match m {
            ReportStatus::Pending => ReportStatusGql::Pending,
            ReportStatus::Resolved => ReportStatusGql::Resolved,
            ReportStatus::Dismissed => ReportStatusGql::Dismissed,
        }
    }
}

impl FromSpecImpl<ReportStatus> for ReportStatusGql {
    open spec fn obeys_from_spec() -> bool {
        true
    }

    open spec fn from_spec(v: ReportStatus) -> ReportStatusGql {
        ReportStatusGql::of_model(v)
    }
}

impl From<ReportStatusGql> for ReportStatus {
    fn from(g: ReportStatusGql) -> (r: ReportStatus) {
        match g {
            ReportStatusGql::Pending => ReportStatus::Pending,
            ReportStatusGql::Resolved => ReportStatus::Resolved,
            ReportStatusGql::Dismissed => ReportStatus::Dismissed,
        }
    }
}

impl FromSpecImpl<ReportStatusGql> for ReportStatus {
    open spec fn obeys_from_spec() -> bool {
        true
    }

    open spec fn from_spec(v: ReportStatusGql) -> ReportStatus {
        v.model()
    }
}

/// Converting a `ReportStatus` to its GraphQL form and back gives it back, and
/// the other way round.
pub proof fn lemma_report_status_gql_round_trip(m: ReportStatus, g: ReportStatusGql)
    ensures
        ReportStatusGql::of_model(m).model() == m,
        ReportStatusGql::of_model(g.model()) == g,
{
}


/// The GraphQL form of [`FollowRequestStatus`].
#[derive(Debug, Clone, Copy, PartialEq, Eq, Structural)]
pub enum FollowRequestStatusGql {
    Pending,
    Accepted,
    Rejected,
}

impl FollowRequestStatusGql {
    /// The GraphQL value of a domain value.
    pub open spec fn of_model(m: FollowRequestStatus) -> FollowRequestStatusGql {
        match m {
            FollowRequestStatus::Pending => FollowRequestStatusGql::Pending,
            FollowRequestStatus::Accepted => FollowRequestStatusGql::Accepted,
            FollowRequestStatus::Rejected => FollowRequestStatusGql::Rejected,
        }
    }
}

impl From<FollowRequestStatus> for FollowRequestStatusGql {
    fn from(m: FollowRequestStatus) -> (r: FollowRequestStatusGql) {
        match m {
            FollowRequestStatus::Pending => FollowRequestStatusGql::Pending,
            FollowRequestStatus::Accepted => FollowRequestStatusGql::Accepted,
            FollowRequestStatus::Rejected => FollowRequestStatusGql::Rejected,
        }
    }
}

impl FromSpecImpl<FollowRequestStatus> for FollowRequestStatusGql {
    open spec fn obeys_from_spec() -> bool {
        true
    }

    open spec fn from_spec(v: FollowRequestStatus) -> FollowRequestStatusGql {
        FollowRequestStatusGql::of_model(v)
    }
}


/// The GraphQL form of [`NotificationType`].
#[derive(Debug, Clone, Copy, PartialEq, Eq, Structural)]
pub enum NotificationTypeGql {
    LikePost,
    CommentPost,
    Follow,
    ReplyComment,
    Repost,
    Quote,
    Mention,
    FollowRequest,
    FollowAccepted,
    LikeComment,
    PollEnded,
}

impl NotificationTypeGql {
    /// The GraphQL value of a domain value.
    pub open spec fn of_model(m: NotificationType) -> NotificationTypeGql {
        match m {
            NotificationType::LikePost => NotificationTypeGql::LikePost,
            NotificationType::CommentPost => NotificationTypeGql::CommentPost,
            NotificationType::Follow => NotificationTypeGql::Follow,
            NotificationType::ReplyComment => NotificationTypeGql::ReplyComment,
            NotificationType::Repost => NotificationTypeGql::Repost,
            NotificationType::Quote => NotificationTypeGql::Quote,
            NotificationType::Mention => NotificationTypeGql::Mention,
            NotificationType::FollowRequest => NotificationTypeGql::FollowRequest,
            NotificationType::FollowAccepted => NotificationTypeGql::FollowAccepted,
            NotificationType::LikeComment => NotificationTypeGql::LikeComment,
            NotificationType::PollEnded => NotificationTypeGql::PollEnded,
        }
    }
}

impl From<NotificationType> for NotificationTypeGql {
    fn from(m: NotificationType) -> (r: NotificationTypeGql) {
        match m {
            NotificationType::LikePost => NotificationTypeGql::LikePost,
            NotificationType::CommentPost => NotificationTypeGql::CommentPost,
            NotificationType::Follow => NotificationTypeGql::Follow,
            NotificationType::ReplyComment => NotificationTypeGql::ReplyComment,
            NotificationType::Repost => NotificationTypeGql::Repost,
            NotificationType::Quote => NotificationTypeGql::Quote,
            NotificationType::Mention => NotificationTypeGql::Mention,
            NotificationType::FollowRequest => NotificationTypeGql::FollowRequest,
            NotificationType::FollowAccepted => NotificationTypeGql::FollowAccepted,
            NotificationType::LikeComment => NotificationTypeGql::LikeComment,
            NotificationType::PollEnded => NotificationTypeGql::PollEnded,
        }
    }
}

impl FromSpecImpl<NotificationType> for NotificationTypeGql {
    open spec fn obeys_from_spec() -> bool {
        true
    }

    open spec fn from_spec(v: NotificationType) -> NotificationTypeGql {
        NotificationTypeGql::of_model(v)
    }
}

impl MediaTypeGql {
    /// The name of the value in the GraphQL schema.
    pub open spec fn gql_name(self) -> Seq<char> {
        match self {
            MediaTypeGql::Image => "IMAGE"@,
            MediaTypeGql::Video => "VIDEO"@,
            MediaTypeGql::Gif => "GIF"@,
        }
    }
}

/// Each GraphQL media type stands for the domain media type of the same name:
/// the conversions keep the name in both directions, so no two values
/// are exchanged and no two are merged.
pub proof fn lemma_media_type_gql_same_name(m: MediaType, n: MediaType, g: MediaTypeGql)
    ensures
        MediaTypeGql::of_model(m).gql_name() == m.name(),
        MediaTypeGql::of_model(m) == MediaTypeGql::of_model(n) ==> m == n,
        g.model().name() == g.gql_name(),
        MediaTypeGql::of_model(MediaType::Image) == MediaTypeGql::Image,
        MediaTypeGql::of_model(MediaType::Video) == MediaTypeGql::Video,
        MediaTypeGql::of_model(MediaType::Gif) == MediaTypeGql::Gif,
        MediaTypeGql::Image.model() == MediaType::Image,
        MediaTypeGql::Video.model() == MediaType::Video,
        MediaTypeGql::Gif.model() == MediaType::Gif,
{
}

impl PostAudienceGql {
    /// The name of the value in the GraphQL schema.
    pub open spec fn gql_name(self) -> Seq<char> {
        match self {
            PostAudienceGql::Public => "PUBLIC"@,
            PostAudienceGql::FollowersOnly => "FOLLOWERS_ONLY"@,
            PostAudienceGql::CloseFriends => "CLOSE_FRIENDS"@,
        }
    }
}

/// Each GraphQL audience stands for the domain audience of the same name:
/// the conversions keep the name in both directions, so no two values
/// are exchanged and no two are merged.
pub proof fn lemma_post_audience_gql_same_name(m: PostAudience, n: PostAudience, g: PostAudienceGql)
    ensures
        PostAudienceGql::of_model(m).gql_name() == m.name(),
        PostAudienceGql::of_model(m) == PostAudienceGql::of_model(n) ==> m == n,
        g.model().name() == g.gql_name(),
        PostAudienceGql::of_model(PostAudience::Public) == PostAudienceGql::Public,
        PostAudienceGql::of_model(PostAudience::FollowersOnly) == PostAudienceGql::FollowersOnly,
        PostAudienceGql::of_model(PostAudience::CloseFriends) == PostAudienceGql::CloseFriends,
        PostAudienceGql::Public.model() == PostAudience::Public,
        PostAudienceGql::FollowersOnly.model() == PostAudience::FollowersOnly,
        PostAudienceGql::CloseFriends.model() == PostAudience::CloseFriends,
{
}

impl ReportTargetTypeGql {
    /// The name of the value in the GraphQL schema.
    pub open spec fn gql_name(self) -> Seq<char> {
        match self {
            ReportTargetTypeGql::Post => "POST"@,
            ReportTargetTypeGql::Comment => "COMMENT"@,
            ReportTargetTypeGql::User => "USER"@,
        }
    }
}

/// Each GraphQL report target stands for the domain report target of the same name:
/// the conversions keep the name in both directions, so no two values
/// are exchanged and no two are merged.
pub proof fn lemma_report_target_type_gql_same_name(m: ReportTargetType, n: ReportTargetType, g: ReportTargetTypeGql)
    ensures
        ReportTargetTypeGql::of_model(m).gql_name() == m.name(),
        ReportTargetTypeGql::of_model(m) == ReportTargetTypeGql::of_model(n) ==> m == n,
        g.model().name() == g.gql_name(),
        ReportTargetTypeGql::of_model(ReportTargetType::Post) == ReportTargetTypeGql::Post,
        ReportTargetTypeGql::of_model(ReportTargetType::Comment) == ReportTargetTypeGql::Comment,
        ReportTargetTypeGql::of_model(ReportTargetType::User) == ReportTargetTypeGql::User,
        ReportTargetTypeGql::Post.model() == ReportTargetType::Post,
        ReportTargetTypeGql::Comment.model() == ReportTargetType::Comment,
        ReportTargetTypeGql::User.model() == ReportTargetType::User,
{
}

impl ReportReasonGql {
    /// The name of the value in the GraphQL schema.
    pub open spec fn gql_name(self) -> Seq<char> {
        match self {
            ReportReasonGql::Spam => "SPAM"@,
            ReportReasonGql::Harassment => "HARASSMENT"@,
            ReportReasonGql::HateSpeech => "HATE_SPEECH"@,
            ReportReasonGql::Inappropriate => "INAPPROPRIATE"@,
            ReportReasonGql::Copyright => "COPYRIGHT"@,
            ReportReasonGql::Other => "OTHER"@,
        }
    }
}

/// Each GraphQL report reason stands for the domain report reason of the same name:
/// the conversions keep the name in both directions, so no two values
/// are exchanged and no two are merged.
pub proof fn lemma_report_reason_gql_same_name(m: ReportReason, n: ReportReason, g: ReportReasonGql)
    ensures
        ReportReasonGql::of_model(m).gql_name() == m.name(),
        ReportReasonGql::of_model(m) == ReportReasonGql::of_model(n) ==> m == n,
        g.model().name() == g.gql_name(),
        ReportReasonGql::of_model(ReportReason::Spam) == ReportReasonGql::Spam,
        ReportReasonGql::of_model(ReportReason::Harassment) == ReportReasonGql::Harassment,
        ReportReasonGql::of_model(ReportReason::HateSpeech) == ReportReasonGql::HateSpeech,
        ReportReasonGql::of_model(ReportReason::Inappropriate) == ReportReasonGql::Inappropriate,
        ReportReasonGql::of_model(ReportReason::Copyright) == ReportReasonGql::Copyright,
        ReportReasonGql::of_model(ReportReason::Other) == ReportReasonGql::Other,
        ReportReasonGql::Spam.model() == ReportReason::Spam,
        ReportReasonGql::Harassment.model() == ReportReason::Harassment,
        ReportReasonGql::HateSpeech.model() == ReportReason::HateSpeech,
        ReportReasonGql::Inappropriate.model() == ReportReason::Inappropriate,
        ReportReasonGql::Copyright.model() == ReportReason::Copyright,
        ReportReasonGql::Other.model() == ReportReason::Other,
{
}

impl ReportStatusGql {
    /// The name of the value in the GraphQL schema.
    pub open spec fn gql_name(self) -> Seq<char> {
        match self {
            ReportStatusGql::Pending => "PENDING"@,
            ReportStatusGql::Resolved => "RESOLVED"@,
            ReportStatusGql::Dismissed => "DISMISSED"@,
        }
    }
}

/// Each GraphQL report status stands for the domain report status of the same name:
/// the conversions keep the name in both directions, so no two values
/// are exchanged and no two are merged.
pub proof fn lemma_report_status_gql_same_name(m: ReportStatus, n: ReportStatus, g: ReportStatusGql)
    ensures
        ReportStatusGql::of_model(m).gql_name() == m.name(),
        ReportStatusGql::of_model(m) == ReportStatusGql::of_model(n) ==> m == n,
        g.model().name() == g.gql_name(),
        ReportStatusGql::of_model(ReportStatus::Pending) == ReportStatusGql::Pending,
        ReportStatusGql::of_model(ReportStatus::Resolved) == ReportStatusGql::Resolved,
        ReportStatusGql::of_model(ReportStatus::Dismissed) == ReportStatusGql::Dismissed,
        ReportStatusGql::Pending.model() == ReportStatus::Pending,
        ReportStatusGql::Resolved.model() == ReportStatus::Resolved,
        ReportStatusGql::Dismissed.model() == ReportStatus::Dismissed,
{
}

impl FollowRequestStatusGql {
    /// The name of the value in the GraphQL schema.
    pub open spec fn gql_name(self) -> Seq<char> {
        match self {
            FollowRequestStatusGql::Pending => "PENDING"@,
            FollowRequestStatusGql::Accepted => "ACCEPTED"@,
            FollowRequestStatusGql::Rejected => "REJECTED"@,
        }
    }
}

/// Each domain follow request status is shown as the GraphQL follow request status of the same name:
/// the conversion keeps the name, so no two values are exchanged and no
/// two are merged.
pub proof fn lemma_follow_request_status_gql_same_name(m: FollowRequestStatus, n: FollowRequestStatus)
    ensures
        FollowRequestStatusGql::of_model(m).gql_name() == m.name(),
        FollowRequestStatusGql::of_model(m) == FollowRequestStatusGql::of_model(n) ==> m == n,
        FollowRequestStatusGql::of_model(FollowRequestStatus::Pending) == FollowRequestStatusGql::Pending,
        FollowRequestStatusGql::of_model(FollowRequestStatus::Accepted) == FollowRequestStatusGql::Accepted,
        FollowRequestStatusGql::of_model(FollowRequestStatus::Rejected) == FollowRequestStatusGql::Rejected,
{
}

impl NotificationTypeGql {
    /// The name of the value in the GraphQL schema.
    pub open spec fn gql_name(self) -> Seq<char> {
        match self {
            NotificationTypeGql::LikePost => "LIKE_POST"@,
            NotificationTypeGql::CommentPost => "COMMENT_POST"@,
            NotificationTypeGql::Follow => "FOLLOW"@,
            NotificationTypeGql::ReplyComment => "REPLY_COMMENT"@,
            NotificationTypeGql::Repost => "REPOST"@,
            NotificationTypeGql::Quote => "QUOTE"@,
            NotificationTypeGql::Mention => "MENTION"@,
            NotificationTypeGql::FollowRequest => "FOLLOW_REQUEST"@,
            NotificationTypeGql::FollowAccepted => "FOLLOW_ACCEPTED"@,
            NotificationTypeGql::LikeComment => "LIKE_COMMENT"@,
            NotificationTypeGql::PollEnded => "POLL_ENDED"@,
        }
    }
}

/// Each domain notification type is shown as the GraphQL notification type of the same name:
/// the conversion keeps the name, so no two values are exchanged and no
/// two are merged.
pub proof fn lemma_notification_type_gql_same_name(m: NotificationType, n: NotificationType)
    ensures
        NotificationTypeGql::of_model(m).gql_name() == m.name(),
        NotificationTypeGql::of_model(m) == NotificationTypeGql::of_model(n) ==> m == n,
        NotificationTypeGql::of_model(NotificationType::LikePost) == NotificationTypeGql::LikePost,
        NotificationTypeGql::of_model(NotificationType::CommentPost) == NotificationTypeGql::CommentPost,
        NotificationTypeGql::of_model(NotificationType::Follow) == NotificationTypeGql::Follow,
        NotificationTypeGql::of_model(NotificationType::ReplyComment) == NotificationTypeGql::ReplyComment,
        NotificationTypeGql::of_model(NotificationType::Repost) == NotificationTypeGql::Repost,
        NotificationTypeGql::of_model(NotificationType::Quote) == NotificationTypeGql::Quote,
        NotificationTypeGql::of_model(NotificationType::Mention) == NotificationTypeGql::Mention,
        NotificationTypeGql::of_model(NotificationType::FollowRequest) == NotificationTypeGql::FollowRequest,
        NotificationTypeGql::of_model(NotificationType::FollowAccepted) == NotificationTypeGql::FollowAccepted,
        NotificationTypeGql::of_model(NotificationType::LikeComment) == NotificationTypeGql::LikeComment,
        NotificationTypeGql::of_model(NotificationType::PollEnded) == NotificationTypeGql::PollEnded,
{
}

} // verus!
