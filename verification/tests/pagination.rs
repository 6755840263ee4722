use serve::domain::models::{Comment, Notification, NotificationType, Post, PostAudience};
use serve::graphql::cursor::{decode_cursor, encode_cursor};
use serve::graphql::pagination::{PageInfoGql, PageRequest};
use serve::graphql::types::{CommentConnectionGql, NotificationConnectionGql, PostConnectionGql};
use serve::time::Timestamp;

fn at(secs: i64) -> Timestamp {
    Timestamp::from_unix(secs, 0).unwrap()
}

fn post(id: u128, secs: i64) -> Post {
    Post {
        id,
        author_id: 1,
        content: "p".to_string(),
        quote_post_id: None,
        pinned_comment_id: None,
        audience: PostAudience::Public,
        views_count: 0,
        created_at: at(secs),
    }
}

#[test]
fn page_size_defaults_to_20_and_is_clamped() {
    assert_eq!(PageRequest::new(None, None).first, 20);
    assert_eq!(PageRequest::new(Some(0), None).first, 1);
    assert_eq!(PageRequest::new(Some(1), None).first, 1);
    assert_eq!(PageRequest::new(Some(50), None).first, 50);
    assert_eq!(PageRequest::new(Some(100), None).first, 100);
    assert_eq!(PageRequest::new(Some(101), None).first, 100);
    assert_eq!(PageRequest::new(Some(usize::MAX), None).first, 100);
}

#[test]
fn after_cursor_is_decoded() {
    let c = encode_cursor(at(1704067200), 5);
    let r = PageRequest::new(Some(10), Some(&c));
    let (t, id) = r.after.unwrap();
    assert_eq!((t.secs(), id), (1704067200, 5));
    assert!(r.has_previous_page);
    let r = PageRequest::new(None, None);
    assert!(r.after.is_none());
    assert!(!r.has_previous_page);
}

#[test]
fn a_bad_cursor_asks_for_the_first_page() {
    let r = PageRequest::new(None, Some("garbage"));
    assert!(r.after.is_none());
    assert!(r.has_previous_page);
}

#[test]
fn connection_edges_carry_cursors() {
    let c = PostConnectionGql::from_page(vec![post(1, 100), post(2, 200)], true, false);
    assert_eq!(c.edges.len(), 2);
    assert_eq!(c.edges[0].node.0.id, 1);
    assert_eq!(c.edges[1].node.0.id, 2);
    assert_eq!(c.edges[0].cursor, encode_cursor(at(100), 1));
    let (t, id) = decode_cursor(&c.edges[1].cursor).unwrap();
    assert_eq!((t.secs(), id), (200, 2));
    assert!(c.page_info.has_next_page());
    assert!(!c.page_info.has_previous_page());
    assert_eq!(c.page_info.start_cursor.as_deref(), Some(c.edges[0].cursor.as_str()));
    assert_eq!(c.page_info.end_cursor.as_deref(), Some(c.edges[1].cursor.as_str()));
}

#[test]
fn empty_page_has_no_cursors() {
    let c = PostConnectionGql::from_page(vec![], false, true);
    assert!(c.edges.is_empty());
    assert!(c.page_info.start_cursor.is_none());
    assert!(c.page_info.end_cursor.is_none());
    assert!(c.page_info.has_previous_page);
    let p = PageInfoGql::of_page::<Post>(&vec![], false, false);
    assert!(p.start_cursor.is_none());
}

#[test]
fn other_connections() {
    let comment = Comment {
        id: 3,
        post_id: 1,
        author_id: 1,
        parent_id: None,
        content: "c".to_string(),
        is_edited: false,
        created_at: at(5),
        updated_at: at(6),
    };
    let c = CommentConnectionGql::from_page(vec![comment], false, false);
    assert_eq!(c.edges[0].cursor, encode_cursor(at(5), 3));
    let n = Notification {
        id: 4,
        recipient_id: 1,
        actor_id: 2,
        notification_type: NotificationType::Follow,
        entity_id: None,
        is_read: false,
        created_at: at(7),
    };
    let c = NotificationConnectionGql::from_page(vec![n], false, false, 12);
    assert_eq!(c.unread_count, 12);
    assert_eq!(c.edges[0].cursor, encode_cursor(at(7), 4));
}
