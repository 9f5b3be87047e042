use base64::Engine;
use treasury::api::ApiError;
use treasury::model::cursor_key::CursorKeyId;
use treasury::resource::RepositoryError;
use treasury::schema::account::DeleteResponse;
use treasury::schema::user::UserDeleteResponse;
use treasury::schema::{parse_i64, CreateResponse, Cursor, GetList, GetResponse, Pagination, UpdateResponse};

fn page(max_items: Option<i64>, offset: Option<i64>) -> Pagination {
    Pagination { max_items, cursor: offset.map(|offset| Cursor { offset }) }
}

#[test]
fn offset_defaults_to_zero() {
    assert_eq!(page(None, None).offset(), 0);
    assert_eq!(page(None, Some(30)).offset(), 30);
}

#[test]
fn next_cursor_moves_past_the_results() {
    assert_eq!(page(None, Some(30)).next_cursor(0), None);
    assert_eq!(page(None, Some(30)).next_cursor(5), Some(Cursor { offset: 35 }));
    assert_eq!(page(None, None).next_cursor(100), Some(Cursor { offset: 100 }));
}

#[test]
fn prev_cursor_moves_back_a_page() {
    assert_eq!(page(None, None).prev_cursor(), None);
    assert_eq!(page(Some(10), Some(30)).prev_cursor(), Some(Cursor { offset: 20 }));
    assert_eq!(page(None, Some(30)).prev_cursor(), Some(Cursor { offset: 0 }));
    assert_eq!(page(None, Some(250)).prev_cursor(), Some(Cursor { offset: 150 }));
    assert_eq!(page(Some(i64::MAX), Some(-5)).prev_cursor(), Some(Cursor { offset: 0 }));
    assert_eq!(page(Some(-10), Some(i64::MAX)).prev_cursor(), Some(Cursor { offset: i64::MAX }));
}

#[test]
fn parse_i64_reads_decimal_numbers() {
    assert_eq!(parse_i64("42"), Some(42));
    assert_eq!(parse_i64("-7"), Some(-7));
    assert_eq!(parse_i64("+5"), Some(5));
    assert_eq!(parse_i64("007"), Some(7));
    assert_eq!(parse_i64("9223372036854775807"), Some(i64::MAX));
    assert_eq!(parse_i64("-9223372036854775808"), Some(i64::MIN));
}

#[test]
fn parse_i64_refuses_what_str_parse_refuses() {
    for s in ["", "-", "+", "12a", " 1", "1 ", "9223372036854775808", "-9223372036854775809", "1_000", "0x10", "١"] {
        assert_eq!(parse_i64(s), None, "{s}");
        assert_eq!(parse_i64(s), s.parse::<i64>().ok(), "{s}");
    }
    for s in ["0", "-0", "+0", "123456789", "-123456789"] {
        assert_eq!(parse_i64(s), s.parse::<i64>().ok(), "{s}");
    }
}

#[test]
fn max_items_parameter() {
    assert_eq!(Pagination::parse_max_items(None).unwrap(), None);
    assert_eq!(Pagination::parse_max_items(Some("25")).unwrap(), Some(25));
    assert!(matches!(
        Pagination::parse_max_items(Some("many")),
        Err(ApiError::ClientError(m)) if m == "Could not parse max items."
    ));
}

#[test]
fn cursor_parameter_is_url_safe_base64() {
    // Sixteen bytes: the key id 7 in the machine's order, then twelve more.
    let mut bytes = 7i32.to_ne_bytes().to_vec();
    bytes.extend_from_slice(&[1, 2, 3, 4, 5, 6, 7, 8, 9, 10, 11, 255]);
    let text = base64::prelude::BASE64_URL_SAFE_NO_PAD.encode(&bytes);
    let c = Pagination::decode_cursor(&text).unwrap();
    assert_eq!(c.key_id, CursorKeyId(7));
    assert_eq!(c.bytes, bytes);
}

#[test]
fn short_or_malformed_cursors_are_invalid() {
    let short = base64::prelude::BASE64_URL_SAFE_NO_PAD.encode([0u8; 15]);
    assert!(matches!(Pagination::decode_cursor(&short), Err(ApiError::ClientError(m)) if m == "Invalid cursor."));
    assert!(matches!(Pagination::decode_cursor("***"), Err(ApiError::ClientError(m)) if m == "Invalid cursor."));
    assert!(matches!(
        Pagination::cursor_parts(vec![0; 16], None),
        Err(ApiError::ClientError(m)) if m == "Invalid cursor."
    ));
}

#[test]
fn cursor_key_errors() {
    assert!(matches!(
        Pagination::cursor_key_error(RepositoryError::NotFound),
        ApiError::ClientError(m) if m == "Invalid cursor."
    ));
    assert!(matches!(
        Pagination::cursor_key_error(RepositoryError::Sqlx(sqlx::Error::PoolClosed)),
        ApiError::ServerError
    ));
}

#[test]
fn response_statuses() {
    assert_eq!(GetResponse::status(), 200);
    assert_eq!(GetList::status(), 200);
    assert_eq!(CreateResponse::status(), 201);
    assert_eq!(UpdateResponse::status(), 200);
    assert_eq!(DeleteResponse::status(), 204);
    assert_eq!(UserDeleteResponse::status(), 204);
}

#[test]
fn back_a_page_undoes_forward_a_page() {
    for (offset, n) in [(0i64, 10i64), (30, 10), (5, 100), (0, 1)] {
        let here = page(Some(n), Some(offset));
        let next = here.next_cursor(n as usize).unwrap();
        let there = Pagination { max_items: Some(n), cursor: Some(next) };
        assert_eq!(there.prev_cursor(), Some(Cursor { offset }));
    }
}
