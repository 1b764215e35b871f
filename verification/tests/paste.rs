use pastebin::id::ID_LENGTH;
use pastebin::paste::can_compute_expiry;
use pastebin::paste::expiry;
use pastebin::paste::new_paste;
use pastebin::paste::paste_reply;
use pastebin::paste::prepare_paste;
use pastebin::paste::refusal_status;
use pastebin::paste::PasteError;
use pastebin::schema::PasteRequest;
use pastebin::schema::PasteRow;
use pastebin::schema::RequestError;
use pastebin::schema::StoreError;
use pastebin::status::Status;
use std::time::SystemTime;
use std::time::UNIX_EPOCH;

fn request(content: &str, expires_in: Option<i64>) -> PasteRequest {
    PasteRequest { content: content.to_string(), expires_in }
}

fn now() -> i64 {
    SystemTime::now().duration_since(UNIX_EPOCH).unwrap().as_secs() as i64
}

fn create(content: &str, expires_in: Option<i64>) -> (Status, PasteRow) {
    let row = new_paste(request(content, expires_in)).expect("paste should be made");
    let (status, reply) = paste_reply(&row, Ok(())).expect("paste should be stored");
    assert_eq!(reply.id, row.id);
    assert_eq!(reply.created_at, row.created_at);
    assert_eq!(reply.expires_at, row.expires_at);
    (status, row)
}

fn is_safe_id(id: &str) -> bool {
    id.chars().all(|c| c.is_ascii_alphanumeric() || c == '_' || c == '-')
}

#[test]
fn paste_returns_201_with_valid_content() {
    let (status, row) = create("Hello, World!", None);
    assert_eq!(status, Status::Created);
    assert_eq!(status.code(), 201);
    assert_eq!(row.content, "Hello, World!");
    assert!(row.expires_at.is_none());
}

#[test]
fn paste_returns_422_with_empty_content() {
    let result = new_paste(request("", None));
    assert_eq!(result, Err(PasteError::Invalid(RequestError::EmptyContent)));
    assert_eq!(Status::UnprocessableEntity.code(), 422);
}

#[test]
fn paste_response_contains_id_and_timestamps() {
    let (_, row) = create("Hello, World!", Some(24));
    assert_eq!(row.id.len(), 6);
    assert!(row.created_at > 0);
    assert!(row.expires_at.expect("expires_at should be an i64") > row.created_at);
}

#[test]
fn paste_response_has_valid_expiration() {
    let before = now();
    let (_, row) = create("Expires later", Some(24));
    let after = now();
    assert!(row.created_at >= before);
    assert!(row.created_at <= after);
    assert_eq!(row.expires_at.unwrap() - row.created_at, 24 * 60 * 60);
}

#[test]
fn paste_generates_unique_ids() {
    let (_, one) = create("First paste", None);
    let (_, two) = create("Second paste", None);
    assert_eq!(one.id.len(), 6);
    assert_eq!(two.id.len(), 6);
    assert_ne!(one.id, two.id);
}

#[test]
fn paste_accepts_zero_hour_expiration() {
    let (_, row) = create("Immediately expires", Some(0));
    assert_eq!(row.expires_at, Some(row.created_at));
}

#[test]
fn paste_ids_use_the_url_safe_alphabet() {
    for _ in 0..50 {
        let (_, row) = create("x", None);
        assert_eq!(row.id.chars().count(), ID_LENGTH);
        assert!(is_safe_id(&row.id), "unexpected id {}", row.id);
    }
}

#[test]
fn paste_keeps_content_exactly() {
    let content = "line one\nline two\nこんにちは";
    let (_, row) = create(content, None);
    assert_eq!(row.content, content);
}

#[test]
fn paste_with_single_character_is_accepted() {
    assert!(new_paste(request("x", None)).is_ok());
    assert!(new_paste(request("é", Some(1))).is_ok());
}

#[test]
fn paste_checks_content_before_expiry() {
    let result = new_paste(request("", Some(i64::MAX)));
    assert_eq!(result, Err(PasteError::Invalid(RequestError::EmptyContent)));
}

#[test]
fn paste_with_unrepresentable_expiry_is_refused() {
    match new_paste(request("x", Some(i64::MAX))) {
        Err(PasteError::ExpiryOutOfRange { .. }) => {}
        other => panic!("unexpected {:?}", other),
    }
}

#[test]
fn paste_with_negative_hours_expires_before_creation() {
    let (_, row) = create("past", Some(-2));
    assert_eq!(row.expires_at, Some(row.created_at - 7200));
}

#[test]
fn prepare_paste_uses_given_id_and_time() {
    let row = prepare_paste(request("body", Some(2)), "abc123".to_string(), 1_000).unwrap();
    assert_eq!(
        row,
        PasteRow { id: "abc123".to_string(), content: "body".to_string(), created_at: 1_000, expires_at: Some(8_200) }
    );
}

#[test]
fn prepare_paste_refuses_empty_content() {
    assert_eq!(
        prepare_paste(request("", Some(2)), "abc123".to_string(), 1_000),
        Err(RequestError::EmptyContent)
    );
}

#[test]
fn expiry_adds_hours_in_seconds() {
    assert_eq!(expiry(100, None), None);
    assert_eq!(expiry(100, Some(1)), Some(3_700));
    assert_eq!(expiry(0, Some(24)), Some(86_400));
    assert_eq!(expiry(-50, Some(-1)), Some(-3_650));
}

#[test]
fn expiry_bounds_follow_chrono() {
    let max_hours = (i64::MAX / 1000) / 3600;
    assert!(can_compute_expiry(0, Some(max_hours)));
    assert!(!can_compute_expiry(0, Some(max_hours + 1)));
    assert!(can_compute_expiry(0, Some(-max_hours)));
    assert!(!can_compute_expiry(0, Some(-max_hours - 1)));
    assert!(!can_compute_expiry(i64::MAX, Some(1)));
    assert!(can_compute_expiry(i64::MAX, None));
    assert_eq!(expiry(0, Some(max_hours)), Some(max_hours * 3600));
}

#[test]
fn paste_reply_reports_store_failure() {
    let row = prepare_paste(request("body", None), "abc123".to_string(), 5).unwrap();
    assert_eq!(paste_reply(&row, Err(StoreError)), Err(Status::InternalServerError));
    assert_eq!(Status::InternalServerError.code(), 500);
}

#[test]
fn refused_requests_are_answered_422() {
    assert_eq!(refusal_status(PasteError::Invalid(RequestError::EmptyContent)), Some(Status::UnprocessableEntity));
    assert_eq!(refusal_status(PasteError::ExpiryOutOfRange { created_at: 0 }), None);
}

#[test]
fn paste_with_largest_hours_is_made() {
    let max_hours = (i64::MAX / 1000) / 3600;
    let row = new_paste(request("far", Some(max_hours))).expect("in-range hours are accepted");
    assert_eq!(row.expires_at, Some(row.created_at + max_hours * 3600));
}

#[test]
fn paste_with_hours_beyond_chrono_is_refused() {
    let max_hours = (i64::MAX / 1000) / 3600;
    for hours in [max_hours + 1, -max_hours - 1] {
        match new_paste(request("far", Some(hours))) {
            Err(PasteError::ExpiryOutOfRange { .. }) => {}
            other => panic!("unexpected {:?} for {}", other, hours),
        }
    }
}

#[test]
fn paste_creation_time_is_after_the_epoch() {
    let (_, row) = create("now", None);
    assert!(row.created_at >= 0);
    assert!(row.created_at <= 8_210_266_876_799);
}
