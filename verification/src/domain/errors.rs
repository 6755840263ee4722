//! Error codes shared by every domain operation and the rich error value
//! that carries a code, a human-readable message and key/value parameters.

use vstd::prelude::*;
#[allow(unused_imports)]
use vstd::string::StringExecFns;

verus! {

/// Standardized error codes across all domain operations
#[derive(Debug, Clone, Copy, PartialEq, Eq, Hash, Structural)]
pub enum ErrorCode {
    // Authentication & Authorization
    AuthInvalidCredentials,
    AuthTokenRequired,
    AuthTokenInvalid,
    AuthUserIdInvalid,
    AuthUserIdOrTokenRequired,
    AuthHashingFailed,
    AuthTokenGenerationFailed,
    AuthUserAlreadyExists,
    AuthInvalidUsername,
    AuthInvalidEmail,
    AuthPasswordTooShort,
    TotpInvalidCode,
    TotpAlreadyEnabled,
    TotpNotEnabled,

    // User & Follow
    UserNotFound,
    UserCannotFollowSelf,
    UserProfileUpdateFailed,
    UserFollowFailed,
    UserUnfollowFailed,

    // Trust & Safety: Blocks & Mutes
    CannotBlockSelf,
    CannotMuteSelf,
    UserBlocked,
    BlockNotFound,
    MuteNotFound,
    FollowRequestNotFound,
    FollowRequestAlreadyExists,
    FollowRequestCannotTargetSelf,

    // Story
    StoryNotFound,
    StoryAuthorNotFound,
    StoryViewersAuthRequired,
    StoryViewersUnauthorized,
    StoryCreateFailed,
    StoryDeleteFailed,
    StoryViewFailed,

    // Post & Comment & Repost
    PostNotFound,
    PostAuthorNotFound,
    PostCreateFailed,
    PostUpdateFailed,
    PostDeleteFailed,
    PostLikeFailed,
    PostUnlikeFailed,
    PostContentInvalid,
    PostAlreadyReposted,
    PostNotReposted,
    CommentNotFound,
    CommentAuthorNotFound,
    CommentCreateFailed,
    CommentDeleteFailed,
    CommentContentInvalid,
    ParentCommentNotFound,

    // Polls
    PollNotFound,
    PollAlreadyVoted,
    PollExpired,
    PollInvalidOptions,

    // Lists & Circles
    ListNotFound,
    ListUnauthorized,
    ListMemberAlreadyExists,

    // Collections
    CollectionNotFound,
    CollectionUnauthorized,

    // Reports & Moderation
    ReportNotFound,
    ReportAlreadySubmitted,

    // Direct Message & Conversations
    DmConversationsAuthRequired,
    DmMessagesAuthRequired,
    DmCannotSendToSelf,
    DmSendFailed,
    DmMarkReadFailed,
    DmSenderNotFound,
    DmRecipientNotFound,
    DmContentInvalid,
    ConversationNotFound,
    ConversationUnauthorized,
    MessageNotFound,
    MessageEditUnauthorized,
    MessageDeleteUnauthorized,

    // Hashtags & Mentions
    HashtagNotFound,

    // Notifications
    NotificationNotFound,
    NotificationMarkReadFailed,
    NotificationAuthRequired,

    // Pagination
    InvalidCursor,

    // Storage / Blob
    StorageUploadFailed,
    StorageDeleteFailed,
    StorageFileNotFound,

    // Security & Limits
    RateLimitExceeded,

    // Generic Fallbacks
    ErrorNotFound,
    ErrorBadRequest,
    ErrorUnauthenticated,
    ErrorForbidden,
    ErrorConflict,
    ErrorInternal,
}

impl ErrorCode {
    /// The wire name of the code, as sent to clients.
    pub open spec fn name(self) -> Seq<char> {
        match self {
            ErrorCode::AuthInvalidCredentials => "AUTH_INVALID_CREDENTIALS"@,
            ErrorCode::AuthTokenRequired => "AUTH_TOKEN_REQUIRED"@,
            ErrorCode::AuthTokenInvalid => "AUTH_TOKEN_INVALID"@,
            ErrorCode::AuthUserIdInvalid => "AUTH_USER_ID_INVALID"@,
            ErrorCode::AuthUserIdOrTokenRequired => "AUTH_USER_ID_OR_TOKEN_REQUIRED"@,
            ErrorCode::AuthHashingFailed => "AUTH_HASHING_FAILED"@,
            ErrorCode::AuthTokenGenerationFailed => "AUTH_TOKEN_GENERATION_FAILED"@,
            ErrorCode::AuthUserAlreadyExists => "AUTH_USER_ALREADY_EXISTS"@,
            ErrorCode::AuthInvalidUsername => "AUTH_INVALID_USERNAME"@,
            ErrorCode::AuthInvalidEmail => "AUTH_INVALID_EMAIL"@,
            ErrorCode::AuthPasswordTooShort => "AUTH_PASSWORD_TOO_SHORT"@,
            ErrorCode::TotpInvalidCode => "TOTP_INVALID_CODE"@,
            ErrorCode::TotpAlreadyEnabled => "TOTP_ALREADY_ENABLED"@,
            ErrorCode::TotpNotEnabled => "TOTP_NOT_ENABLED"@,
            ErrorCode::UserNotFound => "USER_NOT_FOUND"@,
            ErrorCode::UserCannotFollowSelf => "USER_CANNOT_FOLLOW_SELF"@,
            ErrorCode::UserProfileUpdateFailed => "USER_PROFILE_UPDATE_FAILED"@,
            ErrorCode::UserFollowFailed => "USER_FOLLOW_FAILED"@,
            ErrorCode::UserUnfollowFailed => "USER_UNFOLLOW_FAILED"@,
            ErrorCode::CannotBlockSelf => "CANNOT_BLOCK_SELF"@,
            ErrorCode::CannotMuteSelf => "CANNOT_MUTE_SELF"@,
            ErrorCode::UserBlocked => "USER_BLOCKED"@,
            ErrorCode::BlockNotFound => "BLOCK_NOT_FOUND"@,
            ErrorCode::MuteNotFound => "MUTE_NOT_FOUND"@,
            ErrorCode::FollowRequestNotFound => "FOLLOW_REQUEST_NOT_FOUND"@,
            ErrorCode::FollowRequestAlreadyExists => "FOLLOW_REQUEST_ALREADY_EXISTS"@,
            ErrorCode::FollowRequestCannotTargetSelf => "FOLLOW_REQUEST_CANNOT_TARGET_SELF"@,
            ErrorCode::StoryNotFound => "STORY_NOT_FOUND"@,
            ErrorCode::StoryAuthorNotFound => "STORY_AUTHOR_NOT_FOUND"@,
            ErrorCode::StoryViewersAuthRequired => "STORY_VIEWERS_AUTH_REQUIRED"@,
            ErrorCode::StoryViewersUnauthorized => "STORY_VIEWERS_UNAUTHORIZED"@,
            ErrorCode::StoryCreateFailed => "STORY_CREATE_FAILED"@,
            ErrorCode::StoryDeleteFailed => "STORY_DELETE_FAILED"@,
            ErrorCode::StoryViewFailed => "STORY_VIEW_FAILED"@,
            ErrorCode::PostNotFound => "POST_NOT_FOUND"@,
            ErrorCode::PostAuthorNotFound => "POST_AUTHOR_NOT_FOUND"@,
            ErrorCode::PostCreateFailed => "POST_CREATE_FAILED"@,
            ErrorCode::PostUpdateFailed => "POST_UPDATE_FAILED"@,
            ErrorCode::PostDeleteFailed => "POST_DELETE_FAILED"@,
            ErrorCode::PostLikeFailed => "POST_LIKE_FAILED"@,
            ErrorCode::PostUnlikeFailed => "POST_UNLIKE_FAILED"@,
            ErrorCode::PostContentInvalid => "POST_CONTENT_INVALID"@,
            ErrorCode::PostAlreadyReposted => "POST_ALREADY_REPOSTED"@,
            ErrorCode::PostNotReposted => "POST_NOT_REPOSTED"@,
            ErrorCode::CommentNotFound => "COMMENT_NOT_FOUND"@,
            ErrorCode::CommentAuthorNotFound => "COMMENT_AUTHOR_NOT_FOUND"@,
            ErrorCode::CommentCreateFailed => "COMMENT_CREATE_FAILED"@,
            ErrorCode::CommentDeleteFailed => "COMMENT_DELETE_FAILED"@,
            ErrorCode::CommentContentInvalid => "COMMENT_CONTENT_INVALID"@,
            ErrorCode::ParentCommentNotFound => "PARENT_COMMENT_NOT_FOUND"@,
            ErrorCode::PollNotFound => "POLL_NOT_FOUND"@,
            ErrorCode::PollAlreadyVoted => "POLL_ALREADY_VOTED"@,
            ErrorCode::PollExpired => "POLL_EXPIRED"@,
            ErrorCode::PollInvalidOptions => "POLL_INVALID_OPTIONS"@,
            ErrorCode::ListNotFound => "LIST_NOT_FOUND"@,
            ErrorCode::ListUnauthorized => "LIST_UNAUTHORIZED"@,
            ErrorCode::ListMemberAlreadyExists => "LIST_MEMBER_ALREADY_EXISTS"@,
            ErrorCode::CollectionNotFound => "COLLECTION_NOT_FOUND"@,
            ErrorCode::CollectionUnauthorized => "COLLECTION_UNAUTHORIZED"@,
            ErrorCode::ReportNotFound => "REPORT_NOT_FOUND"@,
            ErrorCode::ReportAlreadySubmitted => "REPORT_ALREADY_SUBMITTED"@,
            ErrorCode::DmConversationsAuthRequired => "DM_CONVERSATIONS_AUTH_REQUIRED"@,
            ErrorCode::DmMessagesAuthRequired => "DM_MESSAGES_AUTH_REQUIRED"@,
            ErrorCode::DmCannotSendToSelf => "DM_CANNOT_SEND_TO_SELF"@,
            ErrorCode::DmSendFailed => "DM_SEND_FAILED"@,
            ErrorCode::DmMarkReadFailed => "DM_MARK_READ_FAILED"@,
            ErrorCode::DmSenderNotFound => "DM_SENDER_NOT_FOUND"@,
            ErrorCode::DmRecipientNotFound => "DM_RECIPIENT_NOT_FOUND"@,
            ErrorCode::DmContentInvalid => "DM_CONTENT_INVALID"@,
            ErrorCode::ConversationNotFound => "CONVERSATION_NOT_FOUND"@,
            ErrorCode::ConversationUnauthorized => "CONVERSATION_UNAUTHORIZED"@,
            ErrorCode::MessageNotFound => "MESSAGE_NOT_FOUND"@,
            ErrorCode::MessageEditUnauthorized => "MESSAGE_EDIT_UNAUTHORIZED"@,
            ErrorCode::MessageDeleteUnauthorized => "MESSAGE_DELETE_UNAUTHORIZED"@,
            ErrorCode::HashtagNotFound => "HASHTAG_NOT_FOUND"@,
            ErrorCode::NotificationNotFound => "NOTIFICATION_NOT_FOUND"@,
            ErrorCode::NotificationMarkReadFailed => "NOTIFICATION_MARK_READ_FAILED"@,
            ErrorCode::NotificationAuthRequired => "NOTIFICATION_AUTH_REQUIRED"@,
            ErrorCode::InvalidCursor => "INVALID_CURSOR"@,
            ErrorCode::StorageUploadFailed => "STORAGE_UPLOAD_FAILED"@,
            ErrorCode::StorageDeleteFailed => "STORAGE_DELETE_FAILED"@,
            ErrorCode::StorageFileNotFound => "STORAGE_FILE_NOT_FOUND"@,
            ErrorCode::RateLimitExceeded => "RATE_LIMIT_EXCEEDED"@,
            ErrorCode::ErrorNotFound => "NOT_FOUND"@,
            ErrorCode::ErrorBadRequest => "BAD_REQUEST"@,
            ErrorCode::ErrorUnauthenticated => "UNAUTHENTICATED"@,
            ErrorCode::ErrorForbidden => "FORBIDDEN"@,
            ErrorCode::ErrorConflict => "CONFLICT"@,
            ErrorCode::ErrorInternal => "INTERNAL_SERVER_ERROR"@,
        }
    }

    /// The wire name of the code (such as `"POST_NOT_FOUND"`).
    pub fn as_str(&self) -> (s: &'static str)
        ensures
            s@ == self.name(),
    {
        match self {
            ErrorCode::AuthInvalidCredentials => "AUTH_INVALID_CREDENTIALS",
            ErrorCode::AuthTokenRequired => "AUTH_TOKEN_REQUIRED",
            ErrorCode::AuthTokenInvalid => "AUTH_TOKEN_INVALID",
            ErrorCode::AuthUserIdInvalid => "AUTH_USER_ID_INVALID",
            ErrorCode::AuthUserIdOrTokenRequired => "AUTH_USER_ID_OR_TOKEN_REQUIRED",
            ErrorCode::AuthHashingFailed => "AUTH_HASHING_FAILED",
            ErrorCode::AuthTokenGenerationFailed => "AUTH_TOKEN_GENERATION_FAILED",
            ErrorCode::AuthUserAlreadyExists => "AUTH_USER_ALREADY_EXISTS",
            ErrorCode::AuthInvalidUsername => "AUTH_INVALID_USERNAME",
            ErrorCode::AuthInvalidEmail => "AUTH_INVALID_EMAIL",
            ErrorCode::AuthPasswordTooShort => "AUTH_PASSWORD_TOO_SHORT",
            ErrorCode::TotpInvalidCode => "TOTP_INVALID_CODE",
            ErrorCode::TotpAlreadyEnabled => "TOTP_ALREADY_ENABLED",
            ErrorCode::TotpNotEnabled => "TOTP_NOT_ENABLED",
            ErrorCode::UserNotFound => "USER_NOT_FOUND",
            ErrorCode::UserCannotFollowSelf => "USER_CANNOT_FOLLOW_SELF",
            ErrorCode::UserProfileUpdateFailed => "USER_PROFILE_UPDATE_FAILED",
            ErrorCode::UserFollowFailed => "USER_FOLLOW_FAILED",
            ErrorCode::UserUnfollowFailed => "USER_UNFOLLOW_FAILED",
            ErrorCode::CannotBlockSelf => "CANNOT_BLOCK_SELF",
            ErrorCode::CannotMuteSelf => "CANNOT_MUTE_SELF",
            ErrorCode::UserBlocked => "USER_BLOCKED",
            ErrorCode::BlockNotFound => "BLOCK_NOT_FOUND",
            ErrorCode::MuteNotFound => "MUTE_NOT_FOUND",
            ErrorCode::FollowRequestNotFound => "FOLLOW_REQUEST_NOT_FOUND",
            ErrorCode::FollowRequestAlreadyExists => "FOLLOW_REQUEST_ALREADY_EXISTS",
            ErrorCode::FollowRequestCannotTargetSelf => "FOLLOW_REQUEST_CANNOT_TARGET_SELF",
            ErrorCode::StoryNotFound => "STORY_NOT_FOUND",
            ErrorCode::StoryAuthorNotFound => "STORY_AUTHOR_NOT_FOUND",
            ErrorCode::StoryViewersAuthRequired => "STORY_VIEWERS_AUTH_REQUIRED",
            ErrorCode::StoryViewersUnauthorized => "STORY_VIEWERS_UNAUTHORIZED",
            ErrorCode::StoryCreateFailed => "STORY_CREATE_FAILED",
            ErrorCode::StoryDeleteFailed => "STORY_DELETE_FAILED",
            ErrorCode::StoryViewFailed => "STORY_VIEW_FAILED",
            ErrorCode::PostNotFound => "POST_NOT_FOUND",
            ErrorCode::PostAuthorNotFound => "POST_AUTHOR_NOT_FOUND",
            ErrorCode::PostCreateFailed => "POST_CREATE_FAILED",
            ErrorCode::PostUpdateFailed => "POST_UPDATE_FAILED",
            ErrorCode::PostDeleteFailed => "POST_DELETE_FAILED",
            ErrorCode::PostLikeFailed => "POST_LIKE_FAILED",
            ErrorCode::PostUnlikeFailed => "POST_UNLIKE_FAILED",
            ErrorCode::PostContentInvalid => "POST_CONTENT_INVALID",
            ErrorCode::PostAlreadyReposted => "POST_ALREADY_REPOSTED",
            ErrorCode::PostNotReposted => "POST_NOT_REPOSTED",
            ErrorCode::CommentNotFound => "COMMENT_NOT_FOUND",
            ErrorCode::CommentAuthorNotFound => "COMMENT_AUTHOR_NOT_FOUND",
            ErrorCode::CommentCreateFailed => "COMMENT_CREATE_FAILED",
            ErrorCode::CommentDeleteFailed => "COMMENT_DELETE_FAILED",
            ErrorCode::CommentContentInvalid => "COMMENT_CONTENT_INVALID",
            ErrorCode::ParentCommentNotFound => "PARENT_COMMENT_NOT_FOUND",
            ErrorCode::PollNotFound => "POLL_NOT_FOUND",
            ErrorCode::PollAlreadyVoted => "POLL_ALREADY_VOTED",
            ErrorCode::PollExpired => "POLL_EXPIRED",
            ErrorCode::PollInvalidOptions => "POLL_INVALID_OPTIONS",
            ErrorCode::ListNotFound => "LIST_NOT_FOUND",
            ErrorCode::ListUnauthorized => "LIST_UNAUTHORIZED",
            ErrorCode::ListMemberAlreadyExists => "LIST_MEMBER_ALREADY_EXISTS",
            ErrorCode::CollectionNotFound => "COLLECTION_NOT_FOUND",
            ErrorCode::CollectionUnauthorized => "COLLECTION_UNAUTHORIZED",
            ErrorCode::ReportNotFound => "REPORT_NOT_FOUND",
            ErrorCode::ReportAlreadySubmitted => "REPORT_ALREADY_SUBMITTED",
            ErrorCode::DmConversationsAuthRequired => "DM_CONVERSATIONS_AUTH_REQUIRED",
            ErrorCode::DmMessagesAuthRequired => "DM_MESSAGES_AUTH_REQUIRED",
            ErrorCode::DmCannotSendToSelf => "DM_CANNOT_SEND_TO_SELF",
            ErrorCode::DmSendFailed => "DM_SEND_FAILED",
            ErrorCode::DmMarkReadFailed => "DM_MARK_READ_FAILED",
            ErrorCode::DmSenderNotFound => "DM_SENDER_NOT_FOUND",
            ErrorCode::DmRecipientNotFound => "DM_RECIPIENT_NOT_FOUND",
            ErrorCode::DmContentInvalid => "DM_CONTENT_INVALID",
            ErrorCode::ConversationNotFound => "CONVERSATION_NOT_FOUND",
            ErrorCode::ConversationUnauthorized => "CONVERSATION_UNAUTHORIZED",
            ErrorCode::MessageNotFound => "MESSAGE_NOT_FOUND",
            ErrorCode::MessageEditUnauthorized => "MESSAGE_EDIT_UNAUTHORIZED",
            ErrorCode::MessageDeleteUnauthorized => "MESSAGE_DELETE_UNAUTHORIZED",
            ErrorCode::HashtagNotFound => "HASHTAG_NOT_FOUND",
            ErrorCode::NotificationNotFound => "NOTIFICATION_NOT_FOUND",
            ErrorCode::NotificationMarkReadFailed => "NOTIFICATION_MARK_READ_FAILED",
            ErrorCode::NotificationAuthRequired => "NOTIFICATION_AUTH_REQUIRED",
            ErrorCode::InvalidCursor => "INVALID_CURSOR",
            ErrorCode::StorageUploadFailed => "STORAGE_UPLOAD_FAILED",
            ErrorCode::StorageDeleteFailed => "STORAGE_DELETE_FAILED",
            ErrorCode::StorageFileNotFound => "STORAGE_FILE_NOT_FOUND",
            ErrorCode::RateLimitExceeded => "RATE_LIMIT_EXCEEDED",
            ErrorCode::ErrorNotFound => "NOT_FOUND",
            ErrorCode::ErrorBadRequest => "BAD_REQUEST",
            ErrorCode::ErrorUnauthenticated => "UNAUTHENTICATED",
            ErrorCode::ErrorForbidden => "FORBIDDEN",
            ErrorCode::ErrorConflict => "CONFLICT",
            ErrorCode::ErrorInternal => "INTERNAL_SERVER_ERROR",
        }
    }
}

} // verus!

verus! {

/// The key/value view of a parameter list: entries are applied in order, so
/// a later entry for a key replaces an earlier one.
pub open spec fn params_map(ps: Seq<(String, String)>) -> Map<Seq<char>, Seq<char>>
    decreases ps.len(),
{
    if ps.len() == 0 {
        Map::empty()
    } else {
        params_map(ps.drop_last()).insert(ps.last().0@, ps.last().1@)
    }
}

/// Whether no key occurs twice in a parameter list (as in a map).
pub open spec fn keys_unique(ps: Seq<(String, String)>) -> bool {
    forall|i: int, j: int|
        0 <= i < j < ps.len() ==> (#[trigger] ps[i]).0@ != (#[trigger] ps[j]).0@
}

/// Rich domain error encapsulating code, human-readable message, and
/// structured key-value parameters.
#[derive(Debug, Clone)]
pub struct DomainError {
    pub code: ErrorCode,
    pub message: String,
    pub params: Vec<(String, String)>,
}

impl DomainError {
    /// The parameters of the error, by key.
    pub open spec fn param_map(&self) -> Map<Seq<char>, Seq<char>> {
        params_map(self.params@)
    }

    /// An error with the given code and message and no parameters.
    pub fn new(code: ErrorCode, message: &str) -> (e: Self)
        ensures
            e.code == code,
            e.message@ == message@,
            e.params@.len() == 0,
            keys_unique(e.params@),
            e.param_map() == Map::<Seq<char>, Seq<char>>::empty(),
    {
        DomainError { code, message: message.to_owned(), params: Vec::new() }
    }

    /// The error whose message is the wire name of its own code, the form
    /// used by the validators and most resolvers.
    pub fn from_code(code: ErrorCode) -> (e: Self)
        ensures
            e.code == code,
            e.message@ == code.name(),
            e.params@.len() == 0,
            e.param_map() == Map::<Seq<char>, Seq<char>>::empty(),
    {
        Self::new(code, code.as_str())
    }

    /// The same error with the parameter `key` set to `value`, replacing an
    /// earlier value of `key`.
    pub fn with_param(self, key: &str, value: &str) -> (e: Self)
        ensures
            e.code == self.code,
            e.message@ == self.message@,
            e.param_map() == self.param_map().insert(key@, value@),
            keys_unique(self.params@) ==> keys_unique(e.params@),
    {
        let DomainError { code, message, params } = self;
        let k = key.to_owned();
        let mut kept: Vec<(String, String)> = Vec::new();
        let mut i: usize = 0;
        while i < params.len()
            invariant
                0 <= i <= params@.len(),
                k@ == key@,
                params_map(kept@) == params_map(params@.take(i as int)).remove(key@),
                forall|j: int| 0 <= j < kept@.len() ==> (#[trigger] kept@[j]).0@ != key@,
                forall|j: int|
                    0 <= j < kept@.len() ==> exists|m: int|
                        0 <= m < i && (#[trigger] kept@[j]) == #[trigger] params@[m],
                keys_unique(params@) ==> keys_unique(kept@),
            decreases params@.len() - i,
        {
            assert(params@.take(i + 1).drop_last() == params@.take(i as int));
            let entry = &params[i];
            if !(entry.0 == k) {
                let ghost before = kept@;
                kept.push((entry.0.clone(), entry.1.clone()));
                assert(kept@.drop_last() == before);
                proof {
                    assert(kept@[before.len() as int] == params@[i as int]);
                    assert forall|j: int| 0 <= j < kept@.len() implies exists|m: int|
                        0 <= m < i + 1 && (#[trigger] kept@[j]) == #[trigger] params@[m] by {
                        if j < before.len() {
                            assert(kept@[j] == before[j]);
                            let m = choose|m: int| 0 <= m < i && before[j] == #[trigger] params@[m];
                            assert(kept@[j] == params@[m]);
                        } else {
                            assert(kept@[j] == params@[i as int]);
                        }
                    }
                    if keys_unique(params@) {
                        assert forall|a: int, b: int|
                            0 <= a < b < kept@.len() implies (#[trigger] kept@[a]).0@
                            != (#[trigger] kept@[b]).0@ by {
                            if b == before.len() {
                                assert(kept@[a] == before[a]);
                                let m = choose|m: int| 0 <= m < i && before[a] == #[trigger] params@[m];
                                assert(params@[m].0@ != params@[i as int].0@);
                            } else {
                                assert(kept@[a] == before[a] && kept@[b] == before[b]);
                            }
                        }
                    }
                }
            }
            i += 1;
        }
        assert(params@.take(params@.len() as int) == params@);
        let ghost before = kept@;
        kept.push((k, value.to_owned()));
        assert(kept@.drop_last() == before);
        proof {
            if keys_unique(params@) {
                assert forall|a: int, b: int|
                    0 <= a < b < kept@.len() implies (#[trigger] kept@[a]).0@
                    != (#[trigger] kept@[b]).0@ by {
                    assert(kept@[a] == before[a]);
                    if b == before.len() {
                        assert(kept@[b].0@ == key@);
                    } else {
                        assert(kept@[b] == before[b]);
                    }
                }
            }
        }
        DomainError { code, message, params: kept }
    }

    /// The parameters sent with the error to a client: none when the error
    /// has none, else all of them.
    pub fn client_params(&self) -> (r: Option<&Vec<(String, String)>>)
        ensures
            r is Some <==> self.params@.len() > 0,
            r matches Some(p) ==> p@ == self.params@,
    {
        if self.params.len() == 0 {
            None
        } else {
            Some(&self.params)
        }
    }

    /// The text shown for the error: `[CODE]: message`.
    pub fn to_string(&self) -> (s: String)
        ensures
            s@ == seq!['['] + self.code.name() + seq![']', ':', ' '] + self.message@,
    {
        let mut s = String::new();
        s.push('[');
        s = s.concat(self.code.as_str());
        s = s.concat("]: ");
        s = s.concat(self.message.as_str());
        proof {
            reveal_strlit("]: ");
        }
        s
    }

    /// An error with the given code, message and parameters; a later
    /// parameter for a key replaces an earlier one.
    pub fn with_params(code: ErrorCode, message: &str, params: Vec<(String, String)>) -> (e: Self)
        ensures
            e.code == code,
            e.message@ == message@,
            e.param_map() == params_map(params@),
            keys_unique(e.params@),
    {
        let mut e = Self::new(code, message);
        let mut i: usize = 0;
        while i < params.len()
            invariant
                0 <= i <= params@.len(),
                e.code == code,
                e.message@ == message@,
                e.param_map() == params_map(params@.take(i as int)),
                keys_unique(e.params@),
            decreases params@.len() - i,
        {
            assert(params@.take(i + 1).drop_last() == params@.take(i as int));
            e = e.with_param(params[i].0.as_str(), params[i].1.as_str());
            i += 1;
        }
        assert(params@.take(params@.len() as int) == params@);
        e
    }
}

} // verus!

verus! {

/// Character `i` of `s` as a number, or 0 past its end.
spec fn char_code_at(s: Seq<char>, i: int) -> int {
    if 0 <= i < s.len() {
        s[i] as int
    } else {
        0
    }
}

/// A number computed from a wire name: its length and four of its
/// characters, which tell all the names apart.
spec fn name_key(s: Seq<char>) -> int {
    (((s.len() * 128 + char_code_at(s, 3)) * 128 + char_code_at(s, 8)) * 128 + char_code_at(s, 0))
        * 128 + char_code_at(s, 5)
}

/// The code whose wire name has the key `k`.
spec fn code_of_name_key(k: int) -> ErrorCode {
    if k == 6594519241 {
        ErrorCode::AuthInvalidCredentials
    } else if k == 5252407508 {
        ErrorCode::AuthTokenRequired
    } else if k == 4983972052 {
        ErrorCode::AuthTokenInvalid
    } else if k == 5521055957 {
        ErrorCode::AuthUserIdInvalid
    } else if k == 8205410517 {
        ErrorCode::AuthUserIdOrTokenRequired
    } else if k == 5252456648 {
        ErrorCode::AuthHashingFailed
    } else if k == 7668326612 {
        ErrorCode::AuthTokenGenerationFailed
    } else if k == 6594797781 {
        ErrorCode::AuthUserAlreadyExists
    } else if k == 5789212873 {
        ErrorCode::AuthInvalidUsername
    } else if k == 4983906505 {
        ErrorCode::AuthInvalidEmail
    } else if k == 6326378704 {
        ErrorCode::AuthPasswordTooShort
    } else if k == 4732250697 {
        ErrorCode::TotpInvalidCode
    } else if k == 5537622593 {
        ErrorCode::TotpAlreadyEnabled
    } else if k == 4464306766 {
        ErrorCode::TotpNotEnabled
    } else if k == 3931630286 {
        ErrorCode::UserNotFound
    } else if k == 6347270851 {
        ErrorCode::UserCannotFollowSelf
    } else if k == 7152446160 {
        ErrorCode::UserProfileUpdateFailed
    } else if k == 5005060806 {
        ErrorCode::UserFollowFailed
    } else if k == 5541980885 {
        ErrorCode::UserUnfollowFailed
    } else if k == 4728234452 {
        ErrorCode::CannotBlockSelf
    } else if k == 4459946452 {
        ErrorCode::CannotMuteSelf
    } else if k == 3394300610 {
        ErrorCode::UserBlocked
    } else if k == 4168425823 {
        ErrorCode::BlockNotFound
    } else if k == 3904366286 {
        ErrorCode::MuteNotFound
    } else if k == 6602974039 {
        ErrorCode::FollowRequestNotFound
    } else if k == 7945151319 {
        ErrorCode::FollowRequestAlreadyExists
    } else if k == 9018893143 {
        ErrorCode::FollowRequestCannotTargetSelf
    } else if k == 4199885279 {
        ErrorCode::StoryNotFound
    } else if k == 6078933471 {
        ErrorCode::StoryAuthorNotFound
    } else if k == 7420864991 {
        ErrorCode::StoryViewersAuthRequired
    } else if k == 7152429535 {
        ErrorCode::StoryViewersUnauthorized
    } else if k == 5273381343 {
        ErrorCode::StoryCreateFailed
    } else if k == 5273496031 {
        ErrorCode::StoryDeleteFailed
    } else if k == 4736510431 {
        ErrorCode::StoryViewFailed
    } else if k == 3935823950 {
        ErrorCode::PostNotFound
    } else if k == 5814495297 {
        ErrorCode::PostAuthorNotFound
    } else if k == 5009074243 {
        ErrorCode::PostCreateFailed
    } else if k == 5009074261 {
        ErrorCode::PostUpdateFailed
    } else if k == 5009139780 {
        ErrorCode::PostDeleteFailed
    } else if k == 4472268876 {
        ErrorCode::PostLikeFailed
    } else if k == 5009205333 {
        ErrorCode::PostUnlikeFailed
    } else if k == 5546256451 {
        ErrorCode::PostContentInvalid
    } else if k == 5814446145 {
        ErrorCode::PostAlreadyReposted
    } else if k == 4741130318 {
        ErrorCode::PostNotReposted
    } else if k == 4726170062 {
        ErrorCode::CommentNotFound
    } else if k == 6605005262 {
        ErrorCode::CommentAuthorNotFound
    } else if k == 5799731662 {
        ErrorCode::CommentCreateFailed
    } else if k == 5799748046 {
        ErrorCode::CommentDeleteFailed
    } else if k == 6336602574 {
        ErrorCode::CommentContentInvalid
    } else if k == 6588459092 {
        ErrorCode::ParentCommentNotFound
    } else if k == 3919046734 {
        ErrorCode::PollNotFound
    } else if k == 4992362561 {
        ErrorCode::PollAlreadyVoted
    } else if k == 3381815365 {
        ErrorCode::PollExpired
    } else if k == 5529167945 {
        ErrorCode::PollInvalidOptions
    } else if k == 3935823438 {
        ErrorCode::ListNotFound
    } else if k == 4740965973 {
        ErrorCode::ListUnauthorized
    } else if k == 7156573773 {
        ErrorCode::ListMemberAlreadyExists
    } else if k == 5529395651 {
        ErrorCode::CollectionNotFound
    } else if k == 6334702019 {
        ErrorCode::CollectionUnauthorized
    } else if k == 4461947220 {
        ErrorCode::ReportNotFound
    } else if k == 6609381716 {
        ErrorCode::ReportAlreadySubmitted
    } else if k == 8194925134 {
        ErrorCode::DmConversationsAuthRequired
    } else if k == 6873539155 {
        ErrorCode::DmMessagesAuthRequired
    } else if k == 6047474254 {
        ErrorCode::DmCannotSendToSelf
    } else if k == 3933315662 {
        ErrorCode::DmSendFailed
    } else if k == 5263106642 {
        ErrorCode::DmMarkReadFailed
    } else if k == 5275689550 {
        ErrorCode::DmSenderNotFound
    } else if k == 6078751299 {
        ErrorCode::DmRecipientNotFound
    } else if k == 4973634126 {
        ErrorCode::DmContentInvalid
    } else if k == 6087320018 {
        ErrorCode::ConversationNotFound
    } else if k == 6892626386 {
        ErrorCode::ConversationUnauthorized
    } else if k == 4738754247 {
        ErrorCode::MessageNotFound
    } else if k == 6886090439 {
        ErrorCode::MessageEditUnauthorized
    } else if k == 7422944967 {
        ErrorCode::MessageDeleteUnauthorized
    } else if k == 4715684929 {
        ErrorCode::HashtagNotFound
    } else if k == 6060058441 {
        ErrorCode::NotificationNotFound
    } else if k == 7939106633 {
        ErrorCode::NotificationMarkReadFailed
    } else if k == 7133800265 {
        ErrorCode::NotificationAuthRequired
    } else if k == 3895518409 {
        ErrorCode::InvalidCursor
    } else if k == 5810514375 {
        ErrorCode::StorageUploadFailed
    } else if k == 5810235847 {
        ErrorCode::StorageDeleteFailed
    } else if k == 6078704071 {
        ErrorCode::StorageFileNotFound
    } else if k == 5246183756 {
        ErrorCode::RateLimitExceeded
    } else if k == 2616272719 {
        ErrorCode::ErrorNotFound
    } else if k == 3153158469 {
        ErrorCode::ErrorBadRequest
    } else if k == 4206176968 {
        ErrorCode::ErrorUnauthenticated
    } else if k == 2555618116 {
        ErrorCode::ErrorForbidden
    } else if k == 2294292937 {
        ErrorCode::ErrorConflict
    } else {
        ErrorCode::ErrorInternal
    }
}

/// Every wire name is a non-empty run of upper-case ASCII letters and `_`,
/// and its key gives the code back.
proof fn lemma_error_code_name_shape(c: ErrorCode)
    ensures
        code_of_name_key(name_key(c.name())) == c,
        c.name().len() > 0,
        forall|i: int|
            0 <= i < c.name().len() ==> ('A' <= #[trigger] c.name()[i] <= 'Z' || c.name()[i] == '_'),
{
    match c {
        ErrorCode::AuthInvalidCredentials => reveal_strlit("AUTH_INVALID_CREDENTIALS"),
        ErrorCode::AuthTokenRequired => reveal_strlit("AUTH_TOKEN_REQUIRED"),
        ErrorCode::AuthTokenInvalid => reveal_strlit("AUTH_TOKEN_INVALID"),
        ErrorCode::AuthUserIdInvalid => reveal_strlit("AUTH_USER_ID_INVALID"),
        ErrorCode::AuthUserIdOrTokenRequired => reveal_strlit("AUTH_USER_ID_OR_TOKEN_REQUIRED"),
        ErrorCode::AuthHashingFailed => reveal_strlit("AUTH_HASHING_FAILED"),
        ErrorCode::AuthTokenGenerationFailed => reveal_strlit("AUTH_TOKEN_GENERATION_FAILED"),
        ErrorCode::AuthUserAlreadyExists => reveal_strlit("AUTH_USER_ALREADY_EXISTS"),
        ErrorCode::AuthInvalidUsername => reveal_strlit("AUTH_INVALID_USERNAME"),
        ErrorCode::AuthInvalidEmail => reveal_strlit("AUTH_INVALID_EMAIL"),
        ErrorCode::AuthPasswordTooShort => reveal_strlit("AUTH_PASSWORD_TOO_SHORT"),
        ErrorCode::TotpInvalidCode => reveal_strlit("TOTP_INVALID_CODE"),
        ErrorCode::TotpAlreadyEnabled => reveal_strlit("TOTP_ALREADY_ENABLED"),
        ErrorCode::TotpNotEnabled => reveal_strlit("TOTP_NOT_ENABLED"),
        ErrorCode::UserNotFound => reveal_strlit("USER_NOT_FOUND"),
        ErrorCode::UserCannotFollowSelf => reveal_strlit("USER_CANNOT_FOLLOW_SELF"),
        ErrorCode::UserProfileUpdateFailed => reveal_strlit("USER_PROFILE_UPDATE_FAILED"),
        ErrorCode::UserFollowFailed => reveal_strlit("USER_FOLLOW_FAILED"),
        ErrorCode::UserUnfollowFailed => reveal_strlit("USER_UNFOLLOW_FAILED"),
        ErrorCode::CannotBlockSelf => reveal_strlit("CANNOT_BLOCK_SELF"),
        ErrorCode::CannotMuteSelf => reveal_strlit("CANNOT_MUTE_SELF"),
        ErrorCode::UserBlocked => reveal_strlit("USER_BLOCKED"),
        ErrorCode::BlockNotFound => reveal_strlit("BLOCK_NOT_FOUND"),
        ErrorCode::MuteNotFound => reveal_strlit("MUTE_NOT_FOUND"),
        ErrorCode::FollowRequestNotFound => reveal_strlit("FOLLOW_REQUEST_NOT_FOUND"),
        ErrorCode::FollowRequestAlreadyExists => reveal_strlit("FOLLOW_REQUEST_ALREADY_EXISTS"),
        ErrorCode::FollowRequestCannotTargetSelf => reveal_strlit("FOLLOW_REQUEST_CANNOT_TARGET_SELF"),
        ErrorCode::StoryNotFound => reveal_strlit("STORY_NOT_FOUND"),
        ErrorCode::StoryAuthorNotFound => reveal_strlit("STORY_AUTHOR_NOT_FOUND"),
        ErrorCode::StoryViewersAuthRequired => reveal_strlit("STORY_VIEWERS_AUTH_REQUIRED"),
        ErrorCode::StoryViewersUnauthorized => reveal_strlit("STORY_VIEWERS_UNAUTHORIZED"),
        ErrorCode::StoryCreateFailed => reveal_strlit("STORY_CREATE_FAILED"),
        ErrorCode::StoryDeleteFailed => reveal_strlit("STORY_DELETE_FAILED"),
        ErrorCode::StoryViewFailed => reveal_strlit("STORY_VIEW_FAILED"),
        ErrorCode::PostNotFound => reveal_strlit("POST_NOT_FOUND"),
        ErrorCode::PostAuthorNotFound => reveal_strlit("POST_AUTHOR_NOT_FOUND"),
        ErrorCode::PostCreateFailed => reveal_strlit("POST_CREATE_FAILED"),
        ErrorCode::PostUpdateFailed => reveal_strlit("POST_UPDATE_FAILED"),
        ErrorCode::PostDeleteFailed => reveal_strlit("POST_DELETE_FAILED"),
        ErrorCode::PostLikeFailed => reveal_strlit("POST_LIKE_FAILED"),
        ErrorCode::PostUnlikeFailed => reveal_strlit("POST_UNLIKE_FAILED"),
        ErrorCode::PostContentInvalid => reveal_strlit("POST_CONTENT_INVALID"),
        ErrorCode::PostAlreadyReposted => reveal_strlit("POST_ALREADY_REPOSTED"),
        ErrorCode::PostNotReposted => reveal_strlit("POST_NOT_REPOSTED"),
        ErrorCode::CommentNotFound => reveal_strlit("COMMENT_NOT_FOUND"),
        ErrorCode::CommentAuthorNotFound => reveal_strlit("COMMENT_AUTHOR_NOT_FOUND"),
        ErrorCode::CommentCreateFailed => reveal_strlit("COMMENT_CREATE_FAILED"),
        ErrorCode::CommentDeleteFailed => reveal_strlit("COMMENT_DELETE_FAILED"),
        ErrorCode::CommentContentInvalid => reveal_strlit("COMMENT_CONTENT_INVALID"),
        ErrorCode::ParentCommentNotFound => reveal_strlit("PARENT_COMMENT_NOT_FOUND"),
        ErrorCode::PollNotFound => reveal_strlit("POLL_NOT_FOUND"),
        ErrorCode::PollAlreadyVoted => reveal_strlit("POLL_ALREADY_VOTED"),
        ErrorCode::PollExpired => reveal_strlit("POLL_EXPIRED"),
        ErrorCode::PollInvalidOptions => reveal_strlit("POLL_INVALID_OPTIONS"),
        ErrorCode::ListNotFound => reveal_strlit("LIST_NOT_FOUND"),
        ErrorCode::ListUnauthorized => reveal_strlit("LIST_UNAUTHORIZED"),
        ErrorCode::ListMemberAlreadyExists => reveal_strlit("LIST_MEMBER_ALREADY_EXISTS"),
        ErrorCode::CollectionNotFound => reveal_strlit("COLLECTION_NOT_FOUND"),
        ErrorCode::CollectionUnauthorized => reveal_strlit("COLLECTION_UNAUTHORIZED"),
        ErrorCode::ReportNotFound => reveal_strlit("REPORT_NOT_FOUND"),
        ErrorCode::ReportAlreadySubmitted => reveal_strlit("REPORT_ALREADY_SUBMITTED"),
        ErrorCode::DmConversationsAuthRequired => reveal_strlit("DM_CONVERSATIONS_AUTH_REQUIRED"),
        ErrorCode::DmMessagesAuthRequired => reveal_strlit("DM_MESSAGES_AUTH_REQUIRED"),
        ErrorCode::DmCannotSendToSelf => reveal_strlit("DM_CANNOT_SEND_TO_SELF"),
        ErrorCode::DmSendFailed => reveal_strlit("DM_SEND_FAILED"),
        ErrorCode::DmMarkReadFailed => reveal_strlit("DM_MARK_READ_FAILED"),
        ErrorCode::DmSenderNotFound => reveal_strlit("DM_SENDER_NOT_FOUND"),
        ErrorCode::DmRecipientNotFound => reveal_strlit("DM_RECIPIENT_NOT_FOUND"),
        ErrorCode::DmContentInvalid => reveal_strlit("DM_CONTENT_INVALID"),
        ErrorCode::ConversationNotFound => reveal_strlit("CONVERSATION_NOT_FOUND"),
        ErrorCode::ConversationUnauthorized => reveal_strlit("CONVERSATION_UNAUTHORIZED"),
        ErrorCode::MessageNotFound => reveal_strlit("MESSAGE_NOT_FOUND"),
        ErrorCode::MessageEditUnauthorized => reveal_strlit("MESSAGE_EDIT_UNAUTHORIZED"),
        ErrorCode::MessageDeleteUnauthorized => reveal_strlit("MESSAGE_DELETE_UNAUTHORIZED"),
        ErrorCode::HashtagNotFound => reveal_strlit("HASHTAG_NOT_FOUND"),
        ErrorCode::NotificationNotFound => reveal_strlit("NOTIFICATION_NOT_FOUND"),
        ErrorCode::NotificationMarkReadFailed => reveal_strlit("NOTIFICATION_MARK_READ_FAILED"),
        ErrorCode::NotificationAuthRequired => reveal_strlit("NOTIFICATION_AUTH_REQUIRED"),
        ErrorCode::InvalidCursor => reveal_strlit("INVALID_CURSOR"),
        ErrorCode::StorageUploadFailed => reveal_strlit("STORAGE_UPLOAD_FAILED"),
        ErrorCode::StorageDeleteFailed => reveal_strlit("STORAGE_DELETE_FAILED"),
        ErrorCode::StorageFileNotFound => reveal_strlit("STORAGE_FILE_NOT_FOUND"),
        ErrorCode::RateLimitExceeded => reveal_strlit("RATE_LIMIT_EXCEEDED"),
        ErrorCode::ErrorNotFound => reveal_strlit("NOT_FOUND"),
        ErrorCode::ErrorBadRequest => reveal_strlit("BAD_REQUEST"),
        ErrorCode::ErrorUnauthenticated => reveal_strlit("UNAUTHENTICATED"),
        ErrorCode::ErrorForbidden => reveal_strlit("FORBIDDEN"),
        ErrorCode::ErrorConflict => reveal_strlit("CONFLICT"),
        ErrorCode::ErrorInternal => reveal_strlit("INTERNAL_SERVER_ERROR"),
    }
}

/// Distinct error codes have distinct wire names, so the name sent to a
/// client identifies the code.
pub proof fn lemma_error_code_names_distinct(a: ErrorCode, b: ErrorCode)
    requires
        a != b,
    ensures
        a.name() != b.name(),
{
    lemma_error_code_name_shape(a);
    lemma_error_code_name_shape(b);
}

/// Every wire name is a non-empty run of upper-case ASCII letters and `_`.
pub proof fn lemma_error_code_name_charset(c: ErrorCode)
    ensures
        c.name().len() > 0,
        forall|i: int|
            0 <= i < c.name().len() ==> ('A' <= #[trigger] c.name()[i] <= 'Z' || c.name()[i] == '_'),
{
    lemma_error_code_name_shape(c);
}

} // verus!
