//! The object types of the GraphQL schema and the values their fields
//! compute from the entities they wrap.

use vstd::prelude::*;
use crate::domain::errors::{DomainError, ErrorCode};
use crate::domain::models::{
    BookmarkCollection, Comment, Conversation, ConversationSummary, DirectMessage, FollowRequest,
    Notification, NotificationType, Poll, PollOption, Post, PostMedia, Report, Story, TypingEvent,
    User, UserList,
};
use crate::graphql::enums::{
    FollowRequestStatusGql, MediaTypeGql, NotificationTypeGql, PostAudienceGql, ReportReasonGql,
    ReportStatusGql, ReportTargetTypeGql,
};
use crate::graphql::pagination::{cursor_for, cursor_of, describes_page, PageInfoGql};
use crate::ids::{format_id, format_opt_id, uuid_text};
use crate::text::{marked_terms, marked_words, words};
use crate::time::Timestamp;

verus! {

/// The entity found by a lookup, or an error with `code` and `message`
/// when there is none.
pub fn found_or<T>(found: Option<T>, code: ErrorCode, message: &str) -> (r: Result<T, DomainError>)
    ensures
        match found {
            Some(v) => r == Ok::<T, DomainError>(v),
            None => r matches Err(e) && e.code == code && e.message@ == message@ && e.params@.len() == 0,
        },
{
    match found {
        Some(v) => Ok(v),
        None => Err(DomainError::new(code, message)),
    }
}

/// A user account as the schema shows it.
#[derive(Clone, Debug)]
pub struct UserGql(pub User);

impl UserGql {
    /// The `ID` of the user.
    pub fn id(&self) -> (s: String)
        ensures
            s@ == uuid_text(self.0.id),
    {
        format_id(self.0.id)
    }

    /// Whether the authenticated viewer is this user.
    pub fn is_me(&self, auth_user: Option<u128>) -> (b: bool)
        ensures
            b == (auth_user == Some(self.0.id)),
    {
        match auth_user {
            Some(id) => id == self.0.id,
            None => false,
        }
    }
}

/// A story as the schema shows it.
#[derive(Clone, Debug)]
pub struct StoryGql(pub Story);

impl StoryGql {
    /// The `ID` of the story.
    pub fn id(&self) -> (s: String)
        ensures
            s@ == uuid_text(self.0.id),
    {
        format_id(self.0.id)
    }

    /// Whether the story has expired at `now` (strictly after its expiry).
    pub fn is_expired(&self, now: Timestamp) -> (b: bool)
        ensures
            b == now.later_than(self.0.expires_at),
    {
        now.is_after(&self.0.expires_at)
    }

    /// The author found for the story, or `StoryAuthorNotFound`.
    pub fn author_of(&self, found: Option<User>) -> (r: Result<UserGql, DomainError>)
        ensures
            match found {
                Some(u) => r == Ok::<UserGql, DomainError>(UserGql(u)),
                None => r matches Err(e) && e.code == ErrorCode::StoryAuthorNotFound && e.message@
                    == "Story author not found"@ && e.params@.len() == 0,
            },
    {
        match found_or(found, ErrorCode::StoryAuthorNotFound, "Story author not found") {
            Ok(u) => Ok(UserGql(u)),
            Err(e) => Err(e),
        }
    }

    /// Only the authenticated author of a story may list its viewers.
    pub fn viewers_access(&self, auth_user: Option<u128>) -> (r: Result<(), DomainError>)
        ensures
            match auth_user {
                None => r matches Err(e) && e.code == ErrorCode::StoryViewersAuthRequired
                    && e.message@ == "Authentication required to view story viewers"@ && e.params@.len() == 0,
                Some(id) => if id == self.0.author_id {
                    r is Ok
                } else {
                    r matches Err(e) && e.code == ErrorCode::StoryViewersUnauthorized && e.message@
                        == "Unauthorized: Only story authors can view viewer list"@ && e.params@.len() == 0
                },
            },
    {
        match auth_user {
            None => Err(
                DomainError::new(
                    ErrorCode::StoryViewersAuthRequired,
                    "Authentication required to view story viewers",
                ),
            ),
            Some(id) => if id != self.0.author_id {
                Err(
                    DomainError::new(
                        ErrorCode::StoryViewersUnauthorized,
                        "Unauthorized: Only story authors can view viewer list",
                    ),
                )
            } else {
                Ok(())
            },
        }
    }
}

/// The token and account returned by sign-up and login.
#[derive(Clone, Debug)]
pub struct AuthPayloadGql {
    pub token: String,
    pub user: UserGql,
}

/// A media attachment given when creating a post.
#[derive(Clone, Debug)]
pub struct MediaInput {
    pub media_url: String,
    pub media_type: Option<MediaTypeGql>,
    pub alt_text: Option<String>,
    pub sort_order: Option<i32>,
    pub width: Option<i32>,
    pub height: Option<i32>,
}

/// A poll given when creating a post.
#[derive(Clone, Debug)]
pub struct CreatePollInput {
    pub question: String,
    pub options: Vec<String>,
    pub duration_seconds: Option<i64>,
}

/// A media attachment as the schema shows it.
#[derive(Clone, Debug)]
pub struct PostMediaGql(pub PostMedia);

impl PostMediaGql {
    /// The `ID` of the attachment.
    pub fn id(&self) -> (s: String)
        ensures
            s@ == uuid_text(self.0.id),
    {
        format_id(self.0.id)
    }

    /// The kind of the attachment.
    pub fn media_type(&self) -> (t: MediaTypeGql)
        ensures
            t == MediaTypeGql::of_model(self.0.media_type),
    {
        MediaTypeGql::from(self.0.media_type)
    }
}

/// The hashtags of a post text: for each word starting with `#`, the
/// letters, digits and underscores after it, when there is at least one.
pub open spec fn hashtags_of(ts: Seq<Seq<char>>) -> Seq<Seq<char>>
    decreases ts.len(),
{
    if ts.len() == 0 {
        Seq::empty()
    } else {
        let prev = hashtags_of(ts.drop_last());
        if ts.last().len() > 0 {
            prev.push(ts.last())
        } else {
            prev
        }
    }
}

/// A post as the schema shows it.
#[derive(Clone, Debug)]
pub struct PostGql(pub Post);

impl PostGql {
    /// The `ID` of the post.
    pub fn id(&self) -> (s: String)
        ensures
            s@ == uuid_text(self.0.id),
    {
        format_id(self.0.id)
    }

    /// The audience of the post.
    pub fn audience(&self) -> (a: PostAudienceGql)
        ensures
            a == PostAudienceGql::of_model(self.0.audience),
    {
        PostAudienceGql::from(self.0.audience)
    }

    /// The `ID` of the quoted post, if any.
    pub fn quote_post_id(&self) -> (s: Option<String>)
        ensures
            s is Some <==> self.0.quote_post_id is Some,
            s matches Some(t) ==> t@ == uuid_text(self.0.quote_post_id->0),
    {
        format_opt_id(self.0.quote_post_id)
    }

    /// The author found for the post, or `PostAuthorNotFound`.
    pub fn author_of(&self, found: Option<User>) -> (r: Result<UserGql, DomainError>)
        ensures
            match found {
                Some(u) => r == Ok::<UserGql, DomainError>(UserGql(u)),
                None => r matches Err(e) && e.code == ErrorCode::PostAuthorNotFound && e.message@
                    == "Post author not found"@ && e.params@.len() == 0,
            },
    {
        match found_or(found, ErrorCode::PostAuthorNotFound, "Post author not found") {
            Ok(u) => Ok(UserGql(u)),
            Err(e) => Err(e),
        }
    }

    /// The hashtags of the post, in order of appearance (without the `#`).
    pub fn hashtags(&self) -> (tags: Vec<String>)
        ensures
            tags@.map_values(|t: String| t@) == hashtags_of(marked_terms(words(self.0.content@), '#')),
    {
        let terms = marked_words(self.0.content.as_str(), '#');
        let ghost tv = terms@.map_values(|t: String| t@);
        let mut tags: Vec<String> = Vec::new();
        for t in it: terms.into_iter()
            invariant
                it.seq().map_values(|t: String| t@) == tv,
                tags@.map_values(|t: String| t@) == hashtags_of(tv.take(it.index())),
        {
            let ghost before = tags@;
            proof {
                assert(tv.take(it.index() + 1).drop_last() == tv.take(it.index()));
                assert(tv[it.index()] == t@);
            }
            if !t.as_str().is_empty() {
                tags.push(t);
                assert(tags@.map_values(|t: String| t@) == before.map_values(|t: String| t@).push(
                    tv[it.index()],
                ));
            }
        }
        proof {
            assert(tv.take(tv.len() as int) == tv);
        }
        tags
    }
}

/// A poll as the schema shows it.
#[derive(Clone, Debug)]
pub struct PollGql(pub Poll);

impl PollGql {
    /// The `ID` of the poll.
    pub fn id(&self) -> (s: String)
        ensures
            s@ == uuid_text(self.0.id),
    {
        format_id(self.0.id)
    }

    /// The `ID` of the post the poll is attached to.
    pub fn post_id(&self) -> (s: String)
        ensures
            s@ == uuid_text(self.0.post_id),
    {
        format_id(self.0.post_id)
    }

    /// Whether the poll has expired at `now` (strictly after its expiry).
    pub fn is_expired(&self, now: Timestamp) -> (b: bool)
        ensures
            b == now.later_than(self.0.expires_at),
    {
        now.is_after(&self.0.expires_at)
    }
}

/// A poll option as the schema shows it.
#[derive(Clone, Debug)]
pub struct PollOptionGql(pub PollOption);

impl PollOptionGql {
    /// The `ID` of the option.
    pub fn id(&self) -> (s: String)
        ensures
            s@ == uuid_text(self.0.id),
    {
        format_id(self.0.id)
    }

    /// Whether the viewer's vote on the poll (if any) is for this option.
    pub fn is_voted_by_me(&self, user_vote: Option<u128>) -> (b: bool)
        ensures
            b == (user_vote == Some(self.0.id)),
    {
        match user_vote {
            Some(v) => v == self.0.id,
            None => false,
        }
    }
}

/// A user list as the schema shows it.
#[derive(Clone, Debug)]
pub struct UserListGql(pub UserList);

impl UserListGql {
    /// The `ID` of the list.
    pub fn id(&self) -> (s: String)
        ensures
            s@ == uuid_text(self.0.id),
    {
        format_id(self.0.id)
    }

    /// The owner found for the list, or `UserNotFound`.
    pub fn owner_of(&self, found: Option<User>) -> (r: Result<UserGql, DomainError>)
        ensures
            match found {
                Some(u) => r == Ok::<UserGql, DomainError>(UserGql(u)),
                None => r matches Err(e) && e.code == ErrorCode::UserNotFound && e.message@
                    == "Owner not found"@ && e.params@.len() == 0,
            },
    {
        match found_or(found, ErrorCode::UserNotFound, "Owner not found") {
            Ok(u) => Ok(UserGql(u)),
            Err(e) => Err(e),
        }
    }
}

/// A bookmark collection as the schema shows it.
#[derive(Clone, Debug)]
pub struct BookmarkCollectionGql(pub BookmarkCollection);

impl BookmarkCollectionGql {
    /// The `ID` of the collection.
    pub fn id(&self) -> (s: String)
        ensures
            s@ == uuid_text(self.0.id),
    {
        format_id(self.0.id)
    }

    /// The owner found for the collection, or `UserNotFound`.
    pub fn user_of(&self, found: Option<User>) -> (r: Result<UserGql, DomainError>)
        ensures
            match found {
                Some(u) => r == Ok::<UserGql, DomainError>(UserGql(u)),
                None => r matches Err(e) && e.code == ErrorCode::UserNotFound && e.message@
                    == "User not found"@ && e.params@.len() == 0,
            },
    {
        match found_or(found, ErrorCode::UserNotFound, "User not found") {
            Ok(u) => Ok(UserGql(u)),
            Err(e) => Err(e),
        }
    }
}

/// A moderation report as the schema shows it.
#[derive(Clone, Debug)]
pub struct ReportGql(pub Report);

impl ReportGql {
    /// The `ID` of the report.
    pub fn id(&self) -> (s: String)
        ensures
            s@ == uuid_text(self.0.id),
    {
        format_id(self.0.id)
    }

    /// The `ID` of the reported entity.
    pub fn target_id(&self) -> (s: String)
        ensures
            s@ == uuid_text(self.0.target_id),
    {
        format_id(self.0.target_id)
    }

    /// The kind of the reported entity.
    pub fn target_type(&self) -> (t: ReportTargetTypeGql)
        ensures
            t == ReportTargetTypeGql::of_model(self.0.target_type),
    {
        ReportTargetTypeGql::from(self.0.target_type)
    }

    /// The reason given.
    pub fn reason(&self) -> (t: ReportReasonGql)
        ensures
            t == ReportReasonGql::of_model(self.0.reason),
    {
        ReportReasonGql::from(self.0.reason)
    }

    /// The moderation state.
    pub fn status(&self) -> (t: ReportStatusGql)
        ensures
            t == ReportStatusGql::of_model(self.0.status),
    {
        ReportStatusGql::from(self.0.status)
    }

    /// The reporter found for the report, or `UserNotFound`.
    pub fn reporter_of(&self, found: Option<User>) -> (r: Result<UserGql, DomainError>)
        ensures
            match found {
                Some(u) => r == Ok::<UserGql, DomainError>(UserGql(u)),
                None => r matches Err(e) && e.code == ErrorCode::UserNotFound && e.message@
                    == "Reporter not found"@ && e.params@.len() == 0,
            },
    {
        match found_or(found, ErrorCode::UserNotFound, "Reporter not found") {
            Ok(u) => Ok(UserGql(u)),
            Err(e) => Err(e),
        }
    }
}

/// The secret and `otpauth://` URI handed out when setting up 2FA.
#[derive(Clone, Debug)]
pub struct TotpSetupGql {
    pub secret: String,
    pub otpauth_uri: String,
}

/// The next step of the walk up a comment thread.
#[derive(Clone, Debug)]
pub enum ThreadWalk {
    /// Look up the comment `comment_id`, reached at depth `depth`.
    Lookup { depth: usize, comment_id: u128 },
    /// The walk is over, with the depth reached.
    Finished(usize),
}

/// The next step of the search for the root of a comment thread.
#[derive(Clone, Debug)]
pub enum RootWalk {
    /// Look up the comment `comment_id`, `depth` steps above the first parent.
    Lookup { depth: usize, comment_id: u128 },
    /// The search is over, with the root found, if any.
    Finished(Option<Comment>),
}

/// A comment as the schema shows it.
#[derive(Clone, Debug)]
pub struct CommentGql(pub Comment);

impl CommentGql {
    /// The `ID` of the comment.
    pub fn id(&self) -> (s: String)
        ensures
            s@ == uuid_text(self.0.id),
    {
        format_id(self.0.id)
    }

    /// The `ID` of the parent comment, if any.
    pub fn parent_id(&self) -> (s: Option<String>)
        ensures
            s is Some <==> self.0.parent_id is Some,
            s matches Some(t) ==> t@ == uuid_text(self.0.parent_id->0),
    {
        format_opt_id(self.0.parent_id)
    }

    /// The author found for the comment, or `CommentAuthorNotFound`.
    pub fn author_of(&self, found: Option<User>) -> (r: Result<UserGql, DomainError>)
        ensures
            match found {
                Some(u) => r == Ok::<UserGql, DomainError>(UserGql(u)),
                None => r matches Err(e) && e.code == ErrorCode::CommentAuthorNotFound
                    && e.message@ == "Comment author not found"@ && e.params@.len() == 0,
            },
    {
        match found_or(found, ErrorCode::CommentAuthorNotFound, "Comment author not found") {
            Ok(u) => Ok(UserGql(u)),
            Err(e) => Err(e),
        }
    }

    /// The post found for the comment, or `PostNotFound`.
    pub fn post_of(&self, found: Option<Post>) -> (r: Result<PostGql, DomainError>)
        ensures
            match found {
                Some(p) => r == Ok::<PostGql, DomainError>(PostGql(p)),
                None => r matches Err(e) && e.code == ErrorCode::PostNotFound && e.message@
                    == "Post not found"@ && e.params@.len() == 0,
            },
    {
        match found_or(found, ErrorCode::PostNotFound, "Post not found") {
            Ok(p) => Ok(PostGql(p)),
            Err(e) => Err(e),
        }
    }

    /// One step of the depth walk from a comment at `depth` whose parent is
    /// `parent`: each parent adds one level, and the walk stops once it
    /// passes 20 levels.
    fn depth_step(depth: usize, parent: Option<u128>) -> (w: ThreadWalk)
        requires
            depth <= 20,
        ensures
            match parent {
                None => w == ThreadWalk::Finished(depth),
                Some(pid) => if depth + 1 > 20 {
                    w == ThreadWalk::Finished((depth + 1) as usize)
                } else {
                    w == ThreadWalk::Lookup { depth: (depth + 1) as usize, comment_id: pid }
                },
            },
    {
        match parent {
            None => ThreadWalk::Finished(depth),
            Some(pid) => {
                let d = depth + 1;
                if d > 20 {
                    ThreadWalk::Finished(d)
                } else {
                    ThreadWalk::Lookup { depth: d, comment_id: pid }
                }
            },
        }
    }

    /// First step of computing the depth of the comment in its thread
    /// (0 for a top-level comment).
    pub fn depth_start(&self) -> (w: ThreadWalk)
        ensures
            match self.0.parent_id {
                None => w == ThreadWalk::Finished(0),
                Some(pid) => w == ThreadWalk::Lookup { depth: 1, comment_id: pid },
            },
    {
        Self::depth_step(0, self.0.parent_id)
    }

    /// Next step of the depth walk once the comment looked up at `depth`
    /// was found (or not): a missing comment ends the walk.
    pub fn depth_next(depth: usize, found: Option<&Comment>) -> (w: ThreadWalk)
        requires
            1 <= depth <= 20,
        ensures
            match found {
                None => w == ThreadWalk::Finished(depth),
                Some(c) => match c.parent_id {
                    None => w == ThreadWalk::Finished(depth),
                    Some(pid) => if depth == 20 {
                        w == ThreadWalk::Finished(21)
                    } else {
                        w == ThreadWalk::Lookup { depth: (depth + 1) as usize, comment_id: pid }
                    },
                },
            },
            w matches ThreadWalk::Lookup { depth: d, .. } ==> d == depth + 1 && d <= 20,
            w matches ThreadWalk::Finished(d) ==> d <= 21,
    {
        match found {
            None => ThreadWalk::Finished(depth),
            Some(c) => Self::depth_step(depth, c.parent_id),
        }
    }

    /// First step of the search for the root of the comment's thread: a
    /// top-level comment has no root above it.
    pub fn root_start(&self) -> (w: RootWalk)
        ensures
            match self.0.parent_id {
                None => w matches RootWalk::Finished(None),
                Some(pid) => w matches RootWalk::Lookup { depth, comment_id } && depth == 0
                    && comment_id == pid,
            },
    {
        match self.0.parent_id {
            None => RootWalk::Finished(None),
            Some(pid) => RootWalk::Lookup { depth: 0, comment_id: pid },
        }
    }

    /// Next step of the root search once the comment looked up at `depth`
    /// was found (or not): a comment without parent is the root; the search
    /// gives up after 20 levels or at a missing comment.
    pub fn root_next(depth: usize, found: Option<Comment>) -> (w: RootWalk)
        requires
            depth < 20,
        ensures
            match found {
                None => w matches RootWalk::Finished(None),
                Some(c) => match c.parent_id {
                    None => w == RootWalk::Finished(Some(c)),
                    Some(pid) => if depth + 1 < 20 {
                        w == RootWalk::Lookup { depth: (depth + 1) as usize, comment_id: pid }
                    } else {
                        w matches RootWalk::Finished(None)
                    },
                },
            },
            w matches RootWalk::Lookup { depth: d, .. } ==> d == depth + 1 && d < 20,
            w matches RootWalk::Finished(Some(r)) ==> r.parent_id is None,
    {
        match found {
            None => RootWalk::Finished(None),
            Some(c) => match c.parent_id {
                None => RootWalk::Finished(Some(c)),
                Some(pid) => {
                    let d = depth + 1;
                    if d < 20 {
                        RootWalk::Lookup { depth: d, comment_id: pid }
                    } else {
                        RootWalk::Finished(None)
                    }
                },
            },
        }
    }
}

/// A direct message as the schema shows it.
#[derive(Clone, Debug)]
pub struct DirectMessageGql(pub DirectMessage);

impl DirectMessageGql {
    /// The `ID` of the message.
    pub fn id(&self) -> (s: String)
        ensures
            s@ == uuid_text(self.0.id),
    {
        format_id(self.0.id)
    }

    /// The `ID` of the group conversation, if any.
    pub fn conversation_id(&self) -> (s: Option<String>)
        ensures
            s is Some <==> self.0.conversation_id is Some,
            s matches Some(t) ==> t@ == uuid_text(self.0.conversation_id->0),
    {
        format_opt_id(self.0.conversation_id)
    }

    /// Whether the authenticated viewer sent the message.
    pub fn is_mine(&self, auth_user: Option<u128>) -> (b: bool)
        ensures
            b == (auth_user == Some(self.0.sender_id)),
    {
        match auth_user {
            Some(id) => id == self.0.sender_id,
            None => false,
        }
    }

    /// The sender found for the message, or `DmSenderNotFound`.
    pub fn sender_of(&self, found: Option<User>) -> (r: Result<UserGql, DomainError>)
        ensures
            match found {
                Some(u) => r == Ok::<UserGql, DomainError>(UserGql(u)),
                None => r matches Err(e) && e.code == ErrorCode::DmSenderNotFound && e.message@
                    == "Sender user not found"@ && e.params@.len() == 0,
            },
    {
        match found_or(found, ErrorCode::DmSenderNotFound, "Sender user not found") {
            Ok(u) => Ok(UserGql(u)),
            Err(e) => Err(e),
        }
    }

    /// The recipient found for the message, or `DmRecipientNotFound`.
    pub fn recipient_of(&self, found: Option<User>) -> (r: Result<UserGql, DomainError>)
        ensures
            match found {
                Some(u) => r == Ok::<UserGql, DomainError>(UserGql(u)),
                None => r matches Err(e) && e.code == ErrorCode::DmRecipientNotFound && e.message@
                    == "Recipient user not found"@ && e.params@.len() == 0,
            },
    {
        match found_or(found, ErrorCode::DmRecipientNotFound, "Recipient user not found") {
            Ok(u) => Ok(UserGql(u)),
            Err(e) => Err(e),
        }
    }
}

/// A one-to-one conversation summary as the schema shows it.
#[derive(Clone, Debug)]
pub struct ConversationGql(pub ConversationSummary);

/// A group conversation as the schema shows it.
#[derive(Clone, Debug)]
pub struct GroupConversationGql(pub Conversation);

impl GroupConversationGql {
    /// The `ID` of the conversation.
    pub fn id(&self) -> (s: String)
        ensures
            s@ == uuid_text(self.0.id),
    {
        format_id(self.0.id)
    }
}

/// A follow request as the schema shows it.
#[derive(Clone, Debug)]
pub struct FollowRequestGql(pub FollowRequest);

impl FollowRequestGql {
    /// The `ID` of the request.
    pub fn id(&self) -> (s: String)
        ensures
            s@ == uuid_text(self.0.id),
    {
        format_id(self.0.id)
    }

    /// The state of the request.
    pub fn status(&self) -> (t: FollowRequestStatusGql)
        ensures
            t == FollowRequestStatusGql::of_model(self.0.status),
    {
        FollowRequestStatusGql::from(self.0.status)
    }

    /// The requester found for the request, or `UserNotFound`.
    pub fn requester_of(&self, found: Option<User>) -> (r: Result<UserGql, DomainError>)
        ensures
            match found {
                Some(u) => r == Ok::<UserGql, DomainError>(UserGql(u)),
                None => r matches Err(e) && e.code == ErrorCode::UserNotFound && e.message@
                    == "Requester not found"@ && e.params@.len() == 0,
            },
    {
        match found_or(found, ErrorCode::UserNotFound, "Requester not found") {
            Ok(u) => Ok(UserGql(u)),
            Err(e) => Err(e),
        }
    }

    /// The target found for the request, or `UserNotFound`.
    pub fn target_of(&self, found: Option<User>) -> (r: Result<UserGql, DomainError>)
        ensures
            match found {
                Some(u) => r == Ok::<UserGql, DomainError>(UserGql(u)),
                None => r matches Err(e) && e.code == ErrorCode::UserNotFound && e.message@
                    == "Target user not found"@ && e.params@.len() == 0,
            },
    {
        match found_or(found, ErrorCode::UserNotFound, "Target user not found") {
            Ok(u) => Ok(UserGql(u)),
            Err(e) => Err(e),
        }
    }
}

/// A typing indicator as the schema shows it.
#[derive(Clone, Debug)]
pub struct TypingEventGql(pub TypingEvent);

impl TypingEventGql {
    /// The `ID` of the typing user.
    pub fn user_id(&self) -> (s: String)
        ensures
            s@ == uuid_text(self.0.user_id),
    {
        format_id(self.0.user_id)
    }
}

/// A trending hashtag and the number of posts using it.
#[derive(Clone, Debug)]
pub struct HashtagTrendGql {
    pub tag: String,
    pub count: usize,
}

impl HashtagTrendGql {
    /// The trends of a list of (tag, count) pairs, in the same order.
    pub fn from_counts(counts: Vec<(String, usize)>) -> (r: Vec<HashtagTrendGql>)
        ensures
            r@.len() == counts@.len(),
            forall|i: int|
                0 <= i < counts@.len() ==> (#[trigger] r@[i]).tag == counts@[i].0 && r@[i].count
                    == counts@[i].1,
    {
        let ghost all = counts@;
        let mut r: Vec<HashtagTrendGql> = Vec::new();
        for pair in it: counts.into_iter()
            invariant
                it.seq() == all,
                r@.len() == it.index(),
                forall|i: int|
                    0 <= i < it.index() ==> (#[trigger] r@[i]).tag == all[i].0 && r@[i].count
                        == all[i].1,
        {
            let (tag, count) = pair;
            r.push(HashtagTrendGql { tag, count });
        }
        r
    }
}

/// Which post a notification points to.
#[derive(Clone, Copy, Debug, PartialEq, Eq, Structural)]
pub enum NotificationPostTarget {
    /// No post.
    NoPost,
    /// The post with this id.
    Post(u128),
    /// The post of the comment with this id.
    PostOfComment(u128),
}

/// Notification kinds whose entity is a post.
pub open spec fn is_post_notification(t: NotificationType) -> bool {
    ||| t == NotificationType::LikePost
    ||| t == NotificationType::Repost
    ||| t == NotificationType::Quote
    ||| t == NotificationType::Mention
    ||| t == NotificationType::PollEnded
}

/// Notification kinds whose entity is a comment.
pub open spec fn is_comment_notification(t: NotificationType) -> bool {
    ||| t == NotificationType::CommentPost
    ||| t == NotificationType::ReplyComment
    ||| t == NotificationType::LikeComment
}

/// A notification as the schema shows it.
#[derive(Clone, Debug)]
pub struct NotificationGql(pub Notification);

impl NotificationGql {
    /// The `ID` of the notification.
    pub fn id(&self) -> (s: String)
        ensures
            s@ == uuid_text(self.0.id),
    {
        format_id(self.0.id)
    }

    /// The kind of the notification.
    pub fn notification_type(&self) -> (t: NotificationTypeGql)
        ensures
            t == NotificationTypeGql::of_model(self.0.notification_type),
    {
        NotificationTypeGql::from(self.0.notification_type)
    }

    /// The `ID` of the entity the notification is about, if any.
    pub fn entity_id(&self) -> (s: Option<String>)
        ensures
            s is Some <==> self.0.entity_id is Some,
            s matches Some(t) ==> t@ == uuid_text(self.0.entity_id->0),
    {
        format_opt_id(self.0.entity_id)
    }

    /// The user found for the actor or recipient, or `UserNotFound` with
    /// the given message.
    fn user_of(found: Option<User>, message: &str) -> (r: Result<UserGql, DomainError>)
        ensures
            match found {
                Some(u) => r == Ok::<UserGql, DomainError>(UserGql(u)),
                None => r matches Err(e) && e.code == ErrorCode::UserNotFound && e.message@
                    == message@ && e.params@.len() == 0,
            },
    {
        match found_or(found, ErrorCode::UserNotFound, message) {
            Ok(u) => Ok(UserGql(u)),
            Err(e) => Err(e),
        }
    }

    /// The actor found for the notification, or `UserNotFound`.
    pub fn actor_of(&self, found: Option<User>) -> (r: Result<UserGql, DomainError>)
        ensures
            match found {
                Some(u) => r == Ok::<UserGql, DomainError>(UserGql(u)),
                None => r matches Err(e) && e.code == ErrorCode::UserNotFound && e.message@
                    == "Actor user not found"@ && e.params@.len() == 0,
            },
    {
        Self::user_of(found, "Actor user not found")
    }

    /// The recipient found for the notification, or `UserNotFound`.
    pub fn recipient_of(&self, found: Option<User>) -> (r: Result<UserGql, DomainError>)
        ensures
            match found {
                Some(u) => r == Ok::<UserGql, DomainError>(UserGql(u)),
                None => r matches Err(e) && e.code == ErrorCode::UserNotFound && e.message@
                    == "Recipient user not found"@ && e.params@.len() == 0,
            },
    {
        Self::user_of(found, "Recipient user not found")
    }

    /// The post the notification points to: the entity itself for likes,
    /// reposts, quotes, mentions and ended polls; the post of the entity
    /// comment for comments, replies and comment likes; none otherwise or
    /// without an entity.
    pub fn post_target(&self) -> (t: NotificationPostTarget)
        ensures
            match self.0.entity_id {
                None => t == NotificationPostTarget::NoPost,
                Some(eid) => if is_post_notification(self.0.notification_type) {
                    t == NotificationPostTarget::Post(eid)
                } else if is_comment_notification(self.0.notification_type) {
                    t == NotificationPostTarget::PostOfComment(eid)
                } else {
                    t == NotificationPostTarget::NoPost
                },
            },
    {
        match self.0.entity_id {
            None => NotificationPostTarget::NoPost,
            Some(eid) => match self.0.notification_type {
                NotificationType::LikePost
                | NotificationType::Repost
                | NotificationType::Quote
                | NotificationType::Mention
                | NotificationType::PollEnded => NotificationPostTarget::Post(eid),
                NotificationType::CommentPost
                | NotificationType::ReplyComment
                | NotificationType::LikeComment => NotificationPostTarget::PostOfComment(eid),
                _ => NotificationPostTarget::NoPost,
            },
        }
    }

    /// The comment the notification points to: the entity for comments,
    /// replies and comment likes, none otherwise.
    pub fn comment_target(&self) -> (c: Option<u128>)
        ensures
            c == (if is_comment_notification(self.0.notification_type) {
                self.0.entity_id
            } else {
                None
            }),
    {
        match self.0.notification_type {
            NotificationType::CommentPost
            | NotificationType::ReplyComment
            | NotificationType::LikeComment => self.0.entity_id,
            _ => None,
        }
    }
}

/// An edge of a [`PostConnectionGql`]: an entity and its cursor.
#[derive(Clone, Debug)]
pub struct PostEdgeGql {
    pub cursor: String,
    pub node: PostGql,
}

/// A page of Post values with their cursors.
#[derive(Clone, Debug)]
pub struct PostConnectionGql {
    pub edges: Vec<PostEdgeGql>,
    pub page_info: PageInfoGql,
    pub total_count: Option<usize>,
}

impl PostConnectionGql {
    /// The connection for a page holding `items`, in order.
    pub fn from_page(items: Vec<Post>, has_next_page: bool, has_previous_page: bool) -> (c: Self)
        ensures
            c.edges@.len() == items@.len(),
            forall|i: int|
                0 <= i < items@.len() ==> (#[trigger] c.edges@[i]).node.0 == items@[i]
                    && c.edges@[i].cursor@ == cursor_of(items@[i]),
            describes_page(c.page_info, items@, has_next_page, has_previous_page),
            c.total_count is None,
    {
        let page_info = PageInfoGql::of_page(&items, has_next_page, has_previous_page);
        let ghost all = items@;
        let mut edges: Vec<PostEdgeGql> = Vec::new();
        for item in it: items.into_iter()
            invariant
                it.seq() == all,
                edges@.len() == it.index(),
                forall|i: int|
                    0 <= i < it.index() ==> (#[trigger] edges@[i]).node.0 == all[i]
                        && edges@[i].cursor@ == cursor_of(all[i]),
        {
            let cursor = cursor_for(&item);
            edges.push(PostEdgeGql { cursor, node: PostGql(item) });
        }
        PostConnectionGql { edges, page_info, total_count: None }
    }
}

/// An edge of a [`CommentConnectionGql`]: an entity and its cursor.
#[derive(Clone, Debug)]
pub struct CommentEdgeGql {
    pub cursor: String,
    pub node: CommentGql,
}

/// A page of Comment values with their cursors.
#[derive(Clone, Debug)]
pub struct CommentConnectionGql {
    pub edges: Vec<CommentEdgeGql>,
    pub page_info: PageInfoGql,
    pub total_count: Option<usize>,
}

impl CommentConnectionGql {
    /// The connection for a page holding `items`, in order.
    pub fn from_page(items: Vec<Comment>, has_next_page: bool, has_previous_page: bool) -> (c: Self)
        ensures
            c.edges@.len() == items@.len(),
            forall|i: int|
                0 <= i < items@.len() ==> (#[trigger] c.edges@[i]).node.0 == items@[i]
                    && c.edges@[i].cursor@ == cursor_of(items@[i]),
            describes_page(c.page_info, items@, has_next_page, has_previous_page),
            c.total_count is None,
    {
        let page_info = PageInfoGql::of_page(&items, has_next_page, has_previous_page);
        let ghost all = items@;
        let mut edges: Vec<CommentEdgeGql> = Vec::new();
        for item in it: items.into_iter()
            invariant
                it.seq() == all,
                edges@.len() == it.index(),
                forall|i: int|
                    0 <= i < it.index() ==> (#[trigger] edges@[i]).node.0 == all[i]
                        && edges@[i].cursor@ == cursor_of(all[i]),
        {
            let cursor = cursor_for(&item);
            edges.push(CommentEdgeGql { cursor, node: CommentGql(item) });
        }
        CommentConnectionGql { edges, page_info, total_count: None }
    }
}

/// An edge of a [`DirectMessageConnectionGql`]: an entity and its cursor.
#[derive(Clone, Debug)]
pub struct DirectMessageEdgeGql {
    pub cursor: String,
    pub node: DirectMessageGql,
}

/// A page of DirectMessage values with their cursors.
#[derive(Clone, Debug)]
pub struct DirectMessageConnectionGql {
    pub edges: Vec<DirectMessageEdgeGql>,
    pub page_info: PageInfoGql,
}

impl DirectMessageConnectionGql {
    /// The connection for a page holding `items`, in order.
    pub fn from_page(items: Vec<DirectMessage>, has_next_page: bool, has_previous_page: bool) -> (c: Self)
        ensures
            c.edges@.len() == items@.len(),
            forall|i: int|
                0 <= i < items@.len() ==> (#[trigger] c.edges@[i]).node.0 == items@[i]
                    && c.edges@[i].cursor@ == cursor_of(items@[i]),
            describes_page(c.page_info, items@, has_next_page, has_previous_page),
    {
        let page_info = PageInfoGql::of_page(&items, has_next_page, has_previous_page);
        let ghost all = items@;
        let mut edges: Vec<DirectMessageEdgeGql> = Vec::new();
        for item in it: items.into_iter()
            invariant
                it.seq() == all,
                edges@.len() == it.index(),
                forall|i: int|
                    0 <= i < it.index() ==> (#[trigger] edges@[i]).node.0 == all[i]
                        && edges@[i].cursor@ == cursor_of(all[i]),
        {
            let cursor = cursor_for(&item);
            edges.push(DirectMessageEdgeGql { cursor, node: DirectMessageGql(item) });
        }
        DirectMessageConnectionGql { edges, page_info }
    }
}

/// An edge of a [`NotificationConnectionGql`]: an entity and its cursor.
#[derive(Clone, Debug)]
pub struct NotificationEdgeGql {
    pub cursor: String,
    pub node: NotificationGql,
}

/// A page of Notification values with their cursors.
#[derive(Clone, Debug)]
pub struct NotificationConnectionGql {
    pub edges: Vec<NotificationEdgeGql>,
    pub page_info: PageInfoGql,
    pub unread_count: usize,
}

impl NotificationConnectionGql {
    /// The connection for a page holding `items`, in order.
    pub fn from_page(items: Vec<Notification>, has_next_page: bool, has_previous_page: bool, unread_count: usize) -> (c: Self)
        ensures
            c.edges@.len() == items@.len(),
            forall|i: int|
                0 <= i < items@.len() ==> (#[trigger] c.edges@[i]).node.0 == items@[i]
                    && c.edges@[i].cursor@ == cursor_of(items@[i]),
            describes_page(c.page_info, items@, has_next_page, has_previous_page),
            c.unread_count == unread_count,
    {
        let page_info = PageInfoGql::of_page(&items, has_next_page, has_previous_page);
        let ghost all = items@;
        let mut edges: Vec<NotificationEdgeGql> = Vec::new();
        for item in it: items.into_iter()
            invariant
                it.seq() == all,
                edges@.len() == it.index(),
                forall|i: int|
                    0 <= i < it.index() ==> (#[trigger] edges@[i]).node.0 == all[i]
                        && edges@[i].cursor@ == cursor_of(all[i]),
        {
            let cursor = cursor_for(&item);
            edges.push(NotificationEdgeGql { cursor, node: NotificationGql(item) });
        }
        NotificationConnectionGql { edges, page_info, unread_count }
    }
}

} // verus!
