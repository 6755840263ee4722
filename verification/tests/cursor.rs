use serve::graphql::cursor::{decode_cursor, encode_cursor};
use serve::time::Timestamp;

const ID_ONE: u128 = 1;
const ID_B: u128 = 0x123e4567_e89b_12d3_a456_426614174000;

fn at(secs: i64, nanos: u32) -> Timestamp {
    Timestamp::from_unix(secs, nanos).unwrap()
}

#[test]
fn cursor_is_base64_of_instant_and_id() {
    let c = encode_cursor(at(1704067200, 0), ID_ONE);
    assert_eq!(
        c,
        "MjAyNC0wMS0wMVQwMDowMDowMCswMDowMHwwMDAwMDAwMC0wMDAwLTAwMDAtMDAwMC0wMDAwMDAwMDAwMDE="
    );
    let c = encode_cursor(at(1700000000, 500_000_000), ID_B);
    assert_eq!(
        c,
        "MjAyMy0xMS0xNFQyMjoxMzoyMC41MDArMDA6MDB8MTIzZTQ1NjctZTg5Yi0xMmQzLWE0NTYtNDI2NjE0MTc0MDAw"
    );
}

#[test]
fn cursor_round_trip() {
    for (secs, nanos, id) in [
        (0i64, 0u32, 0u128),
        (1704067200, 0, ID_ONE),
        (1700000000, 123_456_789, ID_B),
        (-62167219200, 0, u128::MAX),
        (253402300799, 999_999_999, 42),
        (1483228799, 1_500_000_000, 7),
    ] {
        let t = at(secs, nanos);
        let (back, id_back) = decode_cursor(&encode_cursor(t, id)).unwrap();
        assert_eq!(back.secs(), secs);
        assert_eq!(back.nanos(), nanos);
        assert_eq!(id_back, id);
    }
}

#[test]
fn cursor_with_surrounding_white_space_is_read() {
    let c = format!("  {}\n", encode_cursor(at(1704067200, 0), ID_ONE));
    let (t, id) = decode_cursor(&c).unwrap();
    assert_eq!(t.secs(), 1704067200);
    assert_eq!(id, ID_ONE);
}

#[test]
fn cursor_separated_by_a_colon_is_read() {
    // "2024-01-01T00:00:00+00:00:00000000-0000-0000-0000-000000000001"
    let c = "MjAyNC0wMS0wMVQwMDowMDowMCswMDowMDowMDAwMDAwMC0wMDAwLTAwMDAtMDAwMC0wMDAwMDAwMDAwMDE=";
    let (t, id) = decode_cursor(c).unwrap();
    assert_eq!(t.secs(), 1704067200);
    assert_eq!(t.nanos(), 0);
    assert_eq!(id, ID_ONE);
}

#[test]
fn text_that_is_not_a_cursor_is_refused() {
    assert!(decode_cursor("").is_none());
    assert!(decode_cursor("not base64!").is_none());
    // base64 of "hello"
    assert!(decode_cursor("aGVsbG8=").is_none());
    // base64 of "2024-01-01T00:00:00Z|nope"
    assert!(decode_cursor("MjAyNC0wMS0wMVQwMDowMDowMFp8bm9wZQ==").is_none());
    // base64 of the bytes ff fe
    assert!(decode_cursor("//4=").is_none());
}

#[test]
fn five_digit_years_do_not_come_back() {
    let t = at(253402300800, 0);
    assert!(decode_cursor(&encode_cursor(t, ID_ONE)).is_none());
}
