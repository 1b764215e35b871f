use pastebin::fetch::fetch_reply;
use pastebin::fetch::health_reply;
use pastebin::paste::new_paste;
use pastebin::paste::paste_reply;
use pastebin::schema::FetchResponse;
use pastebin::schema::PasteRequest;
use pastebin::schema::PasteRow;
use pastebin::schema::StoreError;
use pastebin::status::Status;

fn stored(row: &PasteRow) -> FetchResponse {
    FetchResponse {
        id: row.id.clone(),
        content: row.content.clone(),
        created_at: row.created_at,
        expires_at: row.expires_at,
    }
}

fn create_and_fetch(content: &str, expires_in: Option<i64>) {
    let row = new_paste(PasteRequest { content: content.to_string(), expires_in }).unwrap();
    let (status, created) = paste_reply(&row, Ok(())).unwrap();
    assert_eq!(status, Status::Created);
    let body = fetch_reply(Ok(Some(stored(&row)))).expect("paste should be found");
    assert_eq!(body.id, created.id);
    assert_eq!(body.content, content);
    assert_eq!(body.created_at, created.created_at);
    assert_eq!(body.expires_at, created.expires_at);
}

#[test]
fn fetch_returns_500_when_database_is_unavailable() {
    let reply = fetch_reply(Err(StoreError));
    assert_eq!(reply, Err(Status::InternalServerError));
    assert_eq!(reply.unwrap_err().code(), 500);
}

#[test]
fn fetch_returns_404_when_paste_does_not_exist() {
    let reply = fetch_reply(Ok(None));
    assert_eq!(reply, Err(Status::NotFound));
    assert_eq!(reply.unwrap_err().code(), 404);
}

#[test]
fn fetch_returns_200_when_paste_exists() {
    create_and_fetch("Hello, World!", Some(24));
}

#[test]
fn fetch_returns_paste_without_expiration() {
    create_and_fetch("This paste does not expire", None);
}

#[test]
fn fetch_returns_exact_content() {
    create_and_fetch("line one\nline two\nこんにちは", None);
}

#[test]
fn api_fetch_returns_json_when_exists() {
    let paste = FetchResponse {
        id: "test-abc123".to_string(),
        content: "Test paste content".to_string(),
        created_at: 1_787_313_600,
        expires_at: None,
    };
    assert_eq!(fetch_reply(Ok(Some(paste.clone()))), Ok(paste));
}

#[test]
fn health_returns_200_when_database_is_available() {
    assert_eq!(health_reply(Ok(())), Ok(()));
    assert_eq!(Status::Success.code(), 200);
}

#[test]
fn health_returns_500_when_database_is_unavailable() {
    assert_eq!(health_reply(Err(StoreError)), Err(Status::InternalServerError));
}
