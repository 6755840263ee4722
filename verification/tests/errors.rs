use serve::domain::errors::{DomainError, ErrorCode};

#[test]
fn error_codes_have_screaming_snake_case_names() {
    assert_eq!(ErrorCode::AuthInvalidCredentials.as_str(), "AUTH_INVALID_CREDENTIALS");
    assert_eq!(ErrorCode::UserCannotFollowSelf.as_str(), "USER_CANNOT_FOLLOW_SELF");
    assert_eq!(ErrorCode::DmCannotSendToSelf.as_str(), "DM_CANNOT_SEND_TO_SELF");
    assert_eq!(ErrorCode::InvalidCursor.as_str(), "INVALID_CURSOR");
    assert_eq!(ErrorCode::ErrorNotFound.as_str(), "NOT_FOUND");
    assert_eq!(ErrorCode::ErrorBadRequest.as_str(), "BAD_REQUEST");
    assert_eq!(ErrorCode::ErrorInternal.as_str(), "INTERNAL_SERVER_ERROR");
    assert_eq!(ErrorCode::TotpInvalidCode.as_str(), "TOTP_INVALID_CODE");
}

#[test]
fn new_error_has_no_params() {
    let e = DomainError::new(ErrorCode::PostNotFound, "Post not found");
    assert_eq!(e.code, ErrorCode::PostNotFound);
    assert_eq!(e.message, "Post not found");
    assert!(e.params.is_empty());
}

#[test]
fn from_code_uses_the_code_name_as_message() {
    let e = DomainError::from_code(ErrorCode::AuthTokenRequired);
    assert_eq!(e.message, "AUTH_TOKEN_REQUIRED");
    assert!(e.params.is_empty());
}

fn param(e: &DomainError, key: &str) -> Option<String> {
    e.params.iter().filter(|(k, _)| k == key).map(|(_, v)| v.clone()).last()
}

#[test]
fn with_param_sets_and_replaces() {
    let e = DomainError::new(ErrorCode::PollExpired, "Poll expired")
        .with_param("poll", "p1")
        .with_param("at", "noon")
        .with_param("poll", "p2");
    assert_eq!(e.code, ErrorCode::PollExpired);
    assert_eq!(e.message, "Poll expired");
    assert_eq!(param(&e, "poll").as_deref(), Some("p2"));
    assert_eq!(param(&e, "at").as_deref(), Some("noon"));
    assert_eq!(e.params.iter().filter(|(k, _)| k == "poll").count(), 1);
    assert_eq!(e.params.len(), 2);
}

#[test]
fn with_params_keeps_the_last_value_of_a_key() {
    let e = DomainError::with_params(
        ErrorCode::ErrorConflict,
        "conflict",
        vec![
            ("a".to_string(), "1".to_string()),
            ("b".to_string(), "2".to_string()),
            ("a".to_string(), "3".to_string()),
        ],
    );
    assert_eq!(e.code, ErrorCode::ErrorConflict);
    assert_eq!(e.message, "conflict");
    assert_eq!(param(&e, "a").as_deref(), Some("3"));
    assert_eq!(param(&e, "b").as_deref(), Some("2"));
    assert_eq!(e.params.len(), 2);
}

#[test]
fn error_text_shows_code_and_message() {
    let e = DomainError::new(ErrorCode::UserNotFound, "User not found");
    assert_eq!(e.to_string(), "[USER_NOT_FOUND]: User not found");
    let e = DomainError::new(ErrorCode::ErrorForbidden, "");
    assert_eq!(e.to_string(), "[FORBIDDEN]: ");
}

#[test]
fn every_error_code_has_its_wire_name() {
    let all = [
        (ErrorCode::AuthInvalidCredentials, "AUTH_INVALID_CREDENTIALS"),
        (ErrorCode::AuthTokenRequired, "AUTH_TOKEN_REQUIRED"),
        (ErrorCode::AuthTokenInvalid, "AUTH_TOKEN_INVALID"),
        (ErrorCode::AuthUserIdInvalid, "AUTH_USER_ID_INVALID"),
        (ErrorCode::AuthUserIdOrTokenRequired, "AUTH_USER_ID_OR_TOKEN_REQUIRED"),
        (ErrorCode::AuthHashingFailed, "AUTH_HASHING_FAILED"),
        (ErrorCode::AuthTokenGenerationFailed, "AUTH_TOKEN_GENERATION_FAILED"),
        (ErrorCode::AuthUserAlreadyExists, "AUTH_USER_ALREADY_EXISTS"),
        (ErrorCode::AuthInvalidUsername, "AUTH_INVALID_USERNAME"),
        (ErrorCode::AuthInvalidEmail, "AUTH_INVALID_EMAIL"),
        (ErrorCode::AuthPasswordTooShort, "AUTH_PASSWORD_TOO_SHORT"),
        (ErrorCode::TotpInvalidCode, "TOTP_INVALID_CODE"),
        (ErrorCode::TotpAlreadyEnabled, "TOTP_ALREADY_ENABLED"),
        (ErrorCode::TotpNotEnabled, "TOTP_NOT_ENABLED"),
        (ErrorCode::UserNotFound, "USER_NOT_FOUND"),
        (ErrorCode::UserCannotFollowSelf, "USER_CANNOT_FOLLOW_SELF"),
        (ErrorCode::UserProfileUpdateFailed, "USER_PROFILE_UPDATE_FAILED"),
        (ErrorCode::UserFollowFailed, "USER_FOLLOW_FAILED"),
        (ErrorCode::UserUnfollowFailed, "USER_UNFOLLOW_FAILED"),
        (ErrorCode::CannotBlockSelf, "CANNOT_BLOCK_SELF"),
        (ErrorCode::CannotMuteSelf, "CANNOT_MUTE_SELF"),
        (ErrorCode::UserBlocked, "USER_BLOCKED"),
        (ErrorCode::BlockNotFound, "BLOCK_NOT_FOUND"),
        (ErrorCode::MuteNotFound, "MUTE_NOT_FOUND"),
        (ErrorCode::FollowRequestNotFound, "FOLLOW_REQUEST_NOT_FOUND"),
        (ErrorCode::FollowRequestAlreadyExists, "FOLLOW_REQUEST_ALREADY_EXISTS"),
        (ErrorCode::FollowRequestCannotTargetSelf, "FOLLOW_REQUEST_CANNOT_TARGET_SELF"),
        (ErrorCode::StoryNotFound, "STORY_NOT_FOUND"),
        (ErrorCode::StoryAuthorNotFound, "STORY_AUTHOR_NOT_FOUND"),
        (ErrorCode::StoryViewersAuthRequired, "STORY_VIEWERS_AUTH_REQUIRED"),
        (ErrorCode::StoryViewersUnauthorized, "STORY_VIEWERS_UNAUTHORIZED"),
        (ErrorCode::StoryCreateFailed, "STORY_CREATE_FAILED"),
        (ErrorCode::StoryDeleteFailed, "STORY_DELETE_FAILED"),
        (ErrorCode::StoryViewFailed, "STORY_VIEW_FAILED"),
        (ErrorCode::PostNotFound, "POST_NOT_FOUND"),
        (ErrorCode::PostAuthorNotFound, "POST_AUTHOR_NOT_FOUND"),
        (ErrorCode::PostCreateFailed, "POST_CREATE_FAILED"),
        (ErrorCode::PostUpdateFailed, "POST_UPDATE_FAILED"),
        (ErrorCode::PostDeleteFailed, "POST_DELETE_FAILED"),
        (ErrorCode::PostLikeFailed, "POST_LIKE_FAILED"),
        (ErrorCode::PostUnlikeFailed, "POST_UNLIKE_FAILED"),
        (ErrorCode::PostContentInvalid, "POST_CONTENT_INVALID"),
        (ErrorCode::PostAlreadyReposted, "POST_ALREADY_REPOSTED"),
        (ErrorCode::PostNotReposted, "POST_NOT_REPOSTED"),
        (ErrorCode::CommentNotFound, "COMMENT_NOT_FOUND"),
        (ErrorCode::CommentAuthorNotFound, "COMMENT_AUTHOR_NOT_FOUND"),
        (ErrorCode::CommentCreateFailed, "COMMENT_CREATE_FAILED"),
        (ErrorCode::CommentDeleteFailed, "COMMENT_DELETE_FAILED"),
        (ErrorCode::CommentContentInvalid, "COMMENT_CONTENT_INVALID"),
        (ErrorCode::ParentCommentNotFound, "PARENT_COMMENT_NOT_FOUND"),
        (ErrorCode::PollNotFound, "POLL_NOT_FOUND"),
        (ErrorCode::PollAlreadyVoted, "POLL_ALREADY_VOTED"),
        (ErrorCode::PollExpired, "POLL_EXPIRED"),
        (ErrorCode::PollInvalidOptions, "POLL_INVALID_OPTIONS"),
        (ErrorCode::ListNotFound, "LIST_NOT_FOUND"),
        (ErrorCode::ListUnauthorized, "LIST_UNAUTHORIZED"),
        (ErrorCode::ListMemberAlreadyExists, "LIST_MEMBER_ALREADY_EXISTS"),
        (ErrorCode::CollectionNotFound, "COLLECTION_NOT_FOUND"),
        (ErrorCode::CollectionUnauthorized, "COLLECTION_UNAUTHORIZED"),
        (ErrorCode::ReportNotFound, "REPORT_NOT_FOUND"),
        (ErrorCode::ReportAlreadySubmitted, "REPORT_ALREADY_SUBMITTED"),
        (ErrorCode::DmConversationsAuthRequired, "DM_CONVERSATIONS_AUTH_REQUIRED"),
        (ErrorCode::DmMessagesAuthRequired, "DM_MESSAGES_AUTH_REQUIRED"),
        (ErrorCode::DmCannotSendToSelf, "DM_CANNOT_SEND_TO_SELF"),
        (ErrorCode::DmSendFailed, "DM_SEND_FAILED"),
        (ErrorCode::DmMarkReadFailed, "DM_MARK_READ_FAILED"),
        (ErrorCode::DmSenderNotFound, "DM_SENDER_NOT_FOUND"),
        (ErrorCode::DmRecipientNotFound, "DM_RECIPIENT_NOT_FOUND"),
        (ErrorCode::DmContentInvalid, "DM_CONTENT_INVALID"),
        (ErrorCode::ConversationNotFound, "CONVERSATION_NOT_FOUND"),
        (ErrorCode::ConversationUnauthorized, "CONVERSATION_UNAUTHORIZED"),
        (ErrorCode::MessageNotFound, "MESSAGE_NOT_FOUND"),
        (ErrorCode::MessageEditUnauthorized, "MESSAGE_EDIT_UNAUTHORIZED"),
        (ErrorCode::MessageDeleteUnauthorized, "MESSAGE_DELETE_UNAUTHORIZED"),
        (ErrorCode::HashtagNotFound, "HASHTAG_NOT_FOUND"),
        (ErrorCode::NotificationNotFound, "NOTIFICATION_NOT_FOUND"),
        (ErrorCode::NotificationMarkReadFailed, "NOTIFICATION_MARK_READ_FAILED"),
        (ErrorCode::NotificationAuthRequired, "NOTIFICATION_AUTH_REQUIRED"),
        (ErrorCode::InvalidCursor, "INVALID_CURSOR"),
        (ErrorCode::StorageUploadFailed, "STORAGE_UPLOAD_FAILED"),
        (ErrorCode::StorageDeleteFailed, "STORAGE_DELETE_FAILED"),
        (ErrorCode::StorageFileNotFound, "STORAGE_FILE_NOT_FOUND"),
        (ErrorCode::RateLimitExceeded, "RATE_LIMIT_EXCEEDED"),
        (ErrorCode::ErrorNotFound, "NOT_FOUND"),
        (ErrorCode::ErrorBadRequest, "BAD_REQUEST"),
        (ErrorCode::ErrorUnauthenticated, "UNAUTHENTICATED"),
        (ErrorCode::ErrorForbidden, "FORBIDDEN"),
        (ErrorCode::ErrorConflict, "CONFLICT"),
        (ErrorCode::ErrorInternal, "INTERNAL_SERVER_ERROR"),
    ];
    for (code, name) in all {
        assert_eq!(code.as_str(), name);
        assert_eq!(DomainError::from_code(code).message, name);
    }
}

#[test]
fn wire_names_are_distinct_and_upper_case() {
    let all = [
        ErrorCode::AuthInvalidCredentials,
        ErrorCode::AuthTokenRequired,
        ErrorCode::PostNotFound,
        ErrorCode::PostAuthorNotFound,
        ErrorCode::StoryNotFound,
        ErrorCode::ErrorNotFound,
        ErrorCode::ErrorInternal,
    ];
    for (i, a) in all.iter().enumerate() {
        assert!(!a.as_str().is_empty());
        assert!(a.as_str().chars().all(|c| c.is_ascii_uppercase() || c == '_'));
        for b in &all[i + 1..] {
            assert_ne!(a.as_str(), b.as_str());
        }
    }
}

#[test]
fn params_keep_one_entry_per_key() {
    let e = DomainError::new(ErrorCode::ErrorConflict, "c")
        .with_param("a", "1")
        .with_param("b", "2")
        .with_param("a", "3")
        .with_param("b", "4");
    let mut keys: Vec<&str> = e.params.iter().map(|(k, _)| k.as_str()).collect();
    keys.sort();
    assert_eq!(keys, vec!["a", "b"]);
}

#[test]
fn client_params_only_when_there_are_some() {
    let e = DomainError::new(ErrorCode::ErrorConflict, "c");
    assert!(e.client_params().is_none());
    let e = e.with_param("k", "v");
    assert_eq!(e.client_params().unwrap().len(), 1);
}
