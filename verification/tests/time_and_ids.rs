use serve::domain::models::User;
use serve::graphql::types::UserGql;
use serve::time::Timestamp;

#[test]
fn instants_outside_the_calendar_are_refused() {
    assert!(Timestamp::from_unix(0, 0).is_some());
    assert!(Timestamp::from_unix(1700000000, 999_999_999).is_some());
    assert!(Timestamp::from_unix(i64::MAX, 0).is_none());
    assert!(Timestamp::from_unix(i64::MIN, 0).is_none());
    assert!(Timestamp::from_unix(0, 2_000_000_000).is_none());
}

#[test]
fn rfc3339_text_of_an_instant() {
    let t = Timestamp::from_unix(1704067200, 0).unwrap();
    assert_eq!(t.to_rfc3339(), "2024-01-01T00:00:00+00:00");
    let t = Timestamp::from_unix(1700000000, 500_000_000).unwrap();
    assert_eq!(t.to_rfc3339(), "2023-11-14T22:13:20.500+00:00");
}

#[test]
fn leap_seconds_are_written_as_second_60_and_read_back() {
    let t = Timestamp::from_unix(1483228799, 1_500_000_000).unwrap();
    assert_eq!(t.to_rfc3339(), "2016-12-31T23:59:60.500+00:00");
    let back = Timestamp::parse_rfc3339(&t.to_rfc3339()).unwrap();
    assert_eq!((back.secs(), back.nanos()), (1483228799, 1_500_000_000));
    assert!(Timestamp::from_unix(1483228798, 1_500_000_000).is_none());
}

#[test]
fn rfc3339_text_is_read_back() {
    let t = Timestamp::parse_rfc3339("2024-01-01T00:00:00+00:00").unwrap();
    assert_eq!((t.secs(), t.nanos()), (1704067200, 0));
    let t = Timestamp::parse_rfc3339("2024-01-01T02:00:00.25+02:00").unwrap();
    assert_eq!((t.secs(), t.nanos()), (1704067200, 250_000_000));
    assert!(Timestamp::parse_rfc3339("2024-01-01").is_none());
    assert!(Timestamp::parse_rfc3339("yesterday").is_none());
}

#[test]
fn later_instants_are_after() {
    let a = Timestamp::from_unix(100, 5).unwrap();
    let b = Timestamp::from_unix(100, 6).unwrap();
    let c = Timestamp::from_unix(101, 0).unwrap();
    assert!(b.is_after(&a));
    assert!(c.is_after(&b));
    assert!(!a.is_after(&a));
    assert!(!a.is_after(&c));
}

#[test]
fn now_is_a_recent_instant() {
    let t = Timestamp::now();
    assert!(t.secs() > 1_600_000_000);
    assert!(t.nanos() < 2_000_000_000);
}

fn user(id: u128) -> User {
    User {
        id,
        username: "ferro_dev".to_string(),
        email: "dev@ferro.io".to_string(),
        password_hash: "hash".to_string(),
        display_name: "Ferro".to_string(),
        bio: None,
        avatar_url: None,
        header_image_url: None,
        location: None,
        website: None,
        is_private: false,
        is_2fa_enabled: false,
        totp_secret: None,
        created_at: Timestamp::from_unix(0, 0).unwrap(),
    }
}

#[test]
fn ids_are_shown_as_hyphenated_lowercase_uuids() {
    assert_eq!(UserGql(user(1)).id(), "00000000-0000-0000-0000-000000000001");
    assert_eq!(
        UserGql(user(0x123E4567_E89B_12D3_A456_426614174000)).id(),
        "123e4567-e89b-12d3-a456-426614174000"
    );
}

#[test]
fn is_me_compares_with_the_viewer() {
    let u = UserGql(user(7));
    assert!(u.is_me(Some(7)));
    assert!(!u.is_me(Some(8)));
    assert!(!u.is_me(None));
}
