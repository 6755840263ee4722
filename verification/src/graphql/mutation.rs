//! Decisions taken by the mutation resolvers: checks made before writing,
//! the values written, and the notifications sent afterwards.

use vstd::prelude::*;
use crate::application::social_service::FollowPlan;
use crate::domain::errors::{DomainError, ErrorCode};
use crate::domain::events::NotificationDraft;
use crate::domain::models::{Comment, MediaType, NotificationType, PollOption, Post, PostMedia, User};
use crate::domain::validation::{content_ok, validate_dm_content};
use crate::graphql::enums::MediaTypeGql;
use crate::graphql::types::{CreatePollInput, MediaInput};
use crate::ids::new_id;
use crate::text::{marked_terms, marked_words, trimmed, words};
use crate::time::Timestamp;

verus! {

/// Root of all mutations; each group of mutations below holds the
/// decisions of its resolvers.
pub struct MutationRoot;

/// Sign-up, login, profile and two-factor authentication mutations.
pub struct AuthMutation;

/// Post mutations: creating, quoting, reposting and liking posts.
pub struct PostMutation;

/// Comment mutations.
pub struct CommentMutation;

/// Social graph mutations: following, blocking, follow requests, lists.
pub struct SocialMutation;

/// Direct message mutations.
pub struct DmMutation;

/// Poll mutations.
pub struct PollMutation;

/// The media type stored for an attachment: the one given, else an image.
pub open spec fn media_type_of(t: Option<MediaTypeGql>) -> MediaType {
    match t {
        Some(g) => g.model(),
        None => MediaType::Image,
    }
}

impl PostMutation {
    /// The attachments stored for a new post, one per input in order: the
    /// given URL, type (an image by default), alt text, size, and sort order
    /// (the position in the list by default). Each gets a fresh id and the
    /// current time.
    pub fn post_media(post_id: u128, media: Vec<MediaInput>) -> (r: Vec<PostMedia>)
        ensures
            r@.len() == media@.len(),
            forall|i: int|
                #![trigger r@[i]]
                0 <= i < media@.len() ==> {
                    &&& r@[i].post_id == post_id
                    &&& r@[i].media_url == media@[i].media_url
                    &&& r@[i].media_type == media_type_of(media@[i].media_type)
                    &&& r@[i].alt_text == media@[i].alt_text
                    &&& r@[i].sort_order == (match media@[i].sort_order {
                        Some(o) => o,
                        None => i as i32,
                    })
                    &&& r@[i].width == media@[i].width
                    &&& r@[i].height == media@[i].height
                },
    {
        let ghost all = media@;
        let total = media.len();
        let mut r: Vec<PostMedia> = Vec::new();
        let mut idx: usize = 0;
        for m in it: media.into_iter()
            invariant
                it.seq() == all,
                all.len() == total,
                idx == it.index(),
                r@.len() == it.index(),
                forall|i: int|
                    #![trigger r@[i]]
                    0 <= i < it.index() ==> {
                        &&& r@[i].post_id == post_id
                        &&& r@[i].media_url == all[i].media_url
                        &&& r@[i].media_type == media_type_of(all[i].media_type)
                        &&& r@[i].alt_text == all[i].alt_text
                        &&& r@[i].sort_order == (match all[i].sort_order {
                            Some(o) => o,
                            None => i as i32,
                        })
                        &&& r@[i].width == all[i].width
                        &&& r@[i].height == all[i].height
                    },
        {
            let media_type = match m.media_type {
                Some(g) => MediaType::from(g),
                None => MediaType::Image,
            };
            let sort_order = match m.sort_order {
                Some(o) => o,
                None => idx as i32,
            };
            r.push(
                PostMedia {
                    id: new_id(),
                    post_id,
                    media_url: m.media_url,
                    media_type,
                    alt_text: m.alt_text,
                    sort_order,
                    width: m.width,
                    height: m.height,
                    created_at: Timestamp::now(),
                },
            );
            idx = idx + 1;
        }
        r
    }

    /// How long a new poll stays open: the given number of seconds, else a
    /// day.
    pub fn poll_duration(poll: &CreatePollInput) -> (d: i64)
        ensures
            d == (match poll.duration_seconds {
                Some(s) => s,
                None => 86400,
            }),
    {
        match poll.duration_seconds {
            Some(s) => s,
            None => 86400,
        }
    }

    /// The handles mentioned in a post: for each word starting with `@`,
    /// the letters, digits and underscores after it.
    pub fn mention_handles(content: &str) -> (r: Vec<String>)
        ensures
            r@.map_values(|s: String| s@) == marked_terms(words(content@), '@'),
    {
        marked_words(content, '@')
    }

    /// The notification to a mentioned user, unless the author mentioned
    /// themselves.
    pub fn mention_notification(mentioned_id: u128, author_id: u128, post_id: u128) -> (d: Option<
        NotificationDraft,
    >)
        ensures
            d is Some <==> mentioned_id != author_id,
            d matches Some(n) ==> n == (NotificationDraft {
                recipient_id: mentioned_id,
                actor_id: author_id,
                notification_type: NotificationType::Mention,
                entity_id: Some(post_id),
            }),
    {
        NotificationDraft::to_other(mentioned_id, author_id, NotificationType::Mention, Some(post_id))
    }

    /// The notification to the author of a quoted post (when found), unless
    /// they quoted themselves.
    pub fn quote_notification(quoted: Option<&Post>, author_id: u128, quote_id: u128) -> (d: Option<
        NotificationDraft,
    >)
        ensures
            match quoted {
                None => d is None,
                Some(p) => {
                    &&& d is Some <==> p.author_id != author_id
                    &&& d matches Some(n) ==> n == (NotificationDraft {
                        recipient_id: p.author_id,
                        actor_id: author_id,
                        notification_type: NotificationType::Quote,
                        entity_id: Some(quote_id),
                    })
                },
            },
    {
        match quoted {
            None => None,
            Some(p) => NotificationDraft::to_other(
                p.author_id,
                author_id,
                NotificationType::Quote,
                Some(quote_id),
            ),
        }
    }

    /// The notification to the author of a reposted post, unless they
    /// reposted their own post.
    pub fn repost_notification(post: &Post, user_id: u128) -> (d: Option<NotificationDraft>)
        ensures
            d is Some <==> post.author_id != user_id,
            d matches Some(n) ==> n == (NotificationDraft {
                recipient_id: post.author_id,
                actor_id: user_id,
                notification_type: NotificationType::Repost,
                entity_id: Some(post.id),
            }),
    {
        NotificationDraft::to_other(post.author_id, user_id, NotificationType::Repost, Some(post.id))
    }

    /// The notification to the author of a liked post, unless they liked
    /// their own post.
    pub fn like_notification(post: &Post, user_id: u128) -> (d: Option<NotificationDraft>)
        ensures
            d is Some <==> post.author_id != user_id,
            d matches Some(n) ==> n == (NotificationDraft {
                recipient_id: post.author_id,
                actor_id: user_id,
                notification_type: NotificationType::LikePost,
                entity_id: Some(post.id),
            }),
    {
        NotificationDraft::to_other(post.author_id, user_id, NotificationType::LikePost, Some(post.id))
    }
}

/// Where the author to notify of a new comment is looked up.
#[derive(Debug, Clone, Copy, PartialEq, Eq, Structural)]
pub enum CommentRecipient {
    /// The author of this parent comment (the new comment is a reply).
    ParentComment(u128),
    /// The author of this post (the new comment is top-level).
    Post(u128),
}

impl CommentMutation {
    /// Where to look up the author to notify of a new comment on `post_id`:
    /// the parent comment for a reply, else the post.
    pub fn comment_recipient(post_id: u128, parent_id: Option<u128>) -> (l: CommentRecipient)
        ensures
            l == (match parent_id {
                Some(p) => CommentRecipient::ParentComment(p),
                None => CommentRecipient::Post(post_id),
            }),
    {
        match parent_id {
            Some(p) => CommentRecipient::ParentComment(p),
            None => CommentRecipient::Post(post_id),
        }
    }

    /// The notification for a new comment: to the author of the parent
    /// comment for a reply, else to the author of the post (`recipient_id`,
    /// when found), unless that is the commenter.
    pub fn comment_notification(
        is_reply: bool,
        recipient_id: Option<u128>,
        author_id: u128,
        comment_id: u128,
    ) -> (d: Option<NotificationDraft>)
        ensures
            match recipient_id {
                None => d is None,
                Some(rid) => {
                    &&& d is Some <==> rid != author_id
                    &&& d matches Some(n) ==> n == (NotificationDraft {
                        recipient_id: rid,
                        actor_id: author_id,
                        notification_type: if is_reply {
                            NotificationType::ReplyComment
                        } else {
                            NotificationType::CommentPost
                        },
                        entity_id: Some(comment_id),
                    })
                },
            },
    {
        match recipient_id {
            None => None,
            Some(rid) => {
                let t = if is_reply {
                    NotificationType::ReplyComment
                } else {
                    NotificationType::CommentPost
                };
                NotificationDraft::to_other(rid, author_id, t, Some(comment_id))
            },
        }
    }

    /// The notification to the author of a liked comment, unless they liked
    /// their own comment.
    pub fn like_notification(comment: &Comment, user_id: u128) -> (d: Option<NotificationDraft>)
        ensures
            d is Some <==> comment.author_id != user_id,
            d matches Some(n) ==> n == (NotificationDraft {
                recipient_id: comment.author_id,
                actor_id: user_id,
                notification_type: NotificationType::LikeComment,
                entity_id: Some(comment.id),
            }),
    {
        NotificationDraft::to_other(
            comment.author_id,
            user_id,
            NotificationType::LikeComment,
            Some(comment.id),
        )
    }
}

impl SocialMutation {
    /// Checks a follow of `followee_id` by `follower_id` against the account
    /// found for the followee: nobody follows themselves
    /// (`UserCannotFollowSelf`), the account must exist (`UserNotFound`), and
    /// a private account gets a follow request.
    pub fn follow_plan(follower_id: u128, followee_id: u128, target: Option<User>) -> (r: Result<
        FollowPlan,
        DomainError,
    >)
        ensures
            follower_id == followee_id ==> (r matches Err(e) && e.code
                == ErrorCode::UserCannotFollowSelf && e.message@
                == ErrorCode::UserCannotFollowSelf.name() && e.params@.len() == 0),
            follower_id != followee_id ==> match target {
                None => r matches Err(e) && e.code == ErrorCode::UserNotFound && e.message@
                    == "Target user not found"@ && e.params@.len() == 0,
                Some(u) => if u.is_private {
                    r matches Ok(FollowPlan::Request(v)) && v == u
                } else {
                    r matches Ok(FollowPlan::Direct)
                },
            },
    {
        if follower_id == followee_id {
            return Err(DomainError::from_code(ErrorCode::UserCannotFollowSelf));
        }
        match target {
            None => Err(DomainError::new(ErrorCode::UserNotFound, "Target user not found")),
            Some(u) => if u.is_private {
                Ok(FollowPlan::Request(u))
            } else {
                Ok(FollowPlan::Direct)
            },
        }
    }

    /// The notification to the followed account: a follow request for a
    /// private account, a follow otherwise.
    pub fn follow_notification(follower_id: u128, followee_id: u128, is_private: bool) -> (d:
        NotificationDraft)
        ensures
            d == (NotificationDraft {
                recipient_id: followee_id,
                actor_id: follower_id,
                notification_type: if is_private {
                    NotificationType::FollowRequest
                } else {
                    NotificationType::Follow
                },
                entity_id: None,
            }),
    {
        let t = if is_private {
            NotificationType::FollowRequest
        } else {
            NotificationType::Follow
        };
        NotificationDraft::new(followee_id, follower_id, t, None)
    }

    /// The notification to a requester whose follow request was accepted.
    pub fn accept_notification(target_id: u128, requester_id: u128) -> (d: NotificationDraft)
        ensures
            d == (NotificationDraft {
                recipient_id: requester_id,
                actor_id: target_id,
                notification_type: NotificationType::FollowAccepted,
                entity_id: None,
            }),
    {
        NotificationDraft::new(requester_id, target_id, NotificationType::FollowAccepted, None)
    }
}

impl DmMutation {
    /// Nobody sends a direct message to themselves (`DmCannotSendToSelf`).
    pub fn recipient_check(sender_id: u128, recipient_id: u128) -> (r: Result<(), DomainError>)
        ensures
            r is Ok <==> sender_id != recipient_id,
            r matches Err(e) ==> e.code == ErrorCode::DmCannotSendToSelf && e.message@
                == ErrorCode::DmCannotSendToSelf.name() && e.params@.len() == 0,
    {
        if sender_id == recipient_id {
            Err(DomainError::from_code(ErrorCode::DmCannotSendToSelf))
        } else {
            Ok(())
        }
    }

    /// The text sent as a direct message: refused between users of whom one
    /// blocks the other (`UserBlocked`), then validated and trimmed.
    pub fn message_content(blocked: bool, content: &str) -> (r: Result<String, DomainError>)
        ensures
            blocked ==> (r matches Err(e) && e.code == ErrorCode::UserBlocked && e.message@
                == "Cannot message blocked user"@ && e.params@.len() == 0),
            !blocked ==> (r is Ok <==> content_ok(content@, 2000)),
            !blocked ==> (r matches Err(e) ==> e.code == ErrorCode::DmContentInvalid && e.message@
                == ErrorCode::DmContentInvalid.name() && e.params@.len() == 0),
            r matches Ok(t) ==> t@ == trimmed(content@),
    {
        if blocked {
            return Err(DomainError::new(ErrorCode::UserBlocked, "Cannot message blocked user"));
        }
        validate_dm_content(content)
    }
}

impl PollMutation {
    /// The option voted for, among the options of the poll: the first one
    /// with the given id, or `ErrorNotFound`.
    pub fn voted_option(options: Vec<PollOption>, option_id: u128) -> (r: Result<
        PollOption,
        DomainError,
    >)
        ensures
            match r {
                Ok(o) => exists|i: int|
                    0 <= i < options@.len() && options@[i] == o && o.id == option_id && forall|j: int|
                        0 <= j < i ==> (#[trigger] options@[j]).id != option_id,
                Err(e) => e.code == ErrorCode::ErrorNotFound && e.message@ == "Option not found"@ && e.params@.len() == 0
                    && forall|j: int| 0 <= j < options@.len() ==> (#[trigger] options@[j]).id != option_id,
            },
    {
        let ghost all = options@;
        for o in it: options.into_iter()
            invariant
                it.seq() == all,
                forall|j: int| 0 <= j < it.index() ==> (#[trigger] all[j]).id != option_id,
        {
            if o.id == option_id {
                assert(all[it.index()] == o);
                return Ok(o);
            }
        }
        Err(DomainError::new(ErrorCode::ErrorNotFound, "Option not found"))
    }
}

impl AuthMutation {
    /// 2FA can be set up for an existing account (`UserNotFound`) that does
    /// not have it enabled yet (`TotpAlreadyEnabled`).
    pub fn setup_2fa_account(found: Option<User>) -> (r: Result<User, DomainError>)
        ensures
            match found {
                None => r matches Err(e) && e.code == ErrorCode::UserNotFound && e.message@
                    == "User not found"@ && e.params@.len() == 0,
                Some(u) => if u.is_2fa_enabled {
                    r matches Err(e) && e.code == ErrorCode::TotpAlreadyEnabled && e.message@
                        == "2FA is already enabled"@ && e.params@.len() == 0
                } else {
                    r == Ok::<User, DomainError>(u)
                },
            },
    {
        match found {
            None => Err(DomainError::new(ErrorCode::UserNotFound, "User not found")),
            Some(u) => if u.is_2fa_enabled {
                Err(DomainError::new(ErrorCode::TotpAlreadyEnabled, "2FA is already enabled"))
            } else {
                Ok(u)
            },
        }
    }

    /// The secret to check the first code against when enabling 2FA: the
    /// account must exist (`UserNotFound`) and have gone through setup
    /// (`TotpNotEnabled`).
    pub fn enable_2fa_secret(found: Option<User>) -> (r: Result<String, DomainError>)
        ensures
            match found {
                None => r matches Err(e) && e.code == ErrorCode::UserNotFound && e.message@
                    == "User not found"@ && e.params@.len() == 0,
                Some(u) => match u.totp_secret {
                    None => r matches Err(e) && e.code == ErrorCode::TotpNotEnabled && e.message@
                        == "TOTP setup not initiated"@ && e.params@.len() == 0,
                    Some(s) => r == Ok::<String, DomainError>(s),
                },
            },
    {
        match found {
            None => Err(DomainError::new(ErrorCode::UserNotFound, "User not found")),
            Some(u) => match u.totp_secret {
                None => Err(DomainError::new(ErrorCode::TotpNotEnabled, "TOTP setup not initiated")),
                Some(s) => Ok(s),
            },
        }
    }

    /// The secret to check the code against when disabling 2FA: the account
    /// must exist (`UserNotFound`), have 2FA enabled and hold a secret
    /// (`TotpNotEnabled`).
    pub fn disable_2fa_secret(found: Option<User>) -> (r: Result<String, DomainError>)
        ensures
            match found {
                None => r matches Err(e) && e.code == ErrorCode::UserNotFound && e.message@
                    == "User not found"@ && e.params@.len() == 0,
                Some(u) => if !u.is_2fa_enabled {
                    r matches Err(e) && e.code == ErrorCode::TotpNotEnabled && e.message@
                        == "2FA is not enabled"@ && e.params@.len() == 0
                } else {
                    match u.totp_secret {
                        None => r matches Err(e) && e.code == ErrorCode::TotpNotEnabled
                            && e.message@ == "TOTP secret missing"@ && e.params@.len() == 0,
                        Some(s) => r == Ok::<String, DomainError>(s),
                    }
                },
            },
    {
        match found {
            None => Err(DomainError::new(ErrorCode::UserNotFound, "User not found")),
            Some(u) => if !u.is_2fa_enabled {
                Err(DomainError::new(ErrorCode::TotpNotEnabled, "2FA is not enabled"))
            } else {
                match u.totp_secret {
                    None => Err(DomainError::new(ErrorCode::TotpNotEnabled, "TOTP secret missing")),
                    Some(s) => Ok(s),
                }
            },
        }
    }
}

} // verus!
