use pastebin::fetch::fetch_reply;
use pastebin::schema::FetchResponse;
use pastebin::schema::StoreError;
use pastebin::status::Status;
use pastebin::ui::index_page;
use pastebin::ui::not_found_reply;
use pastebin::ui::paste_page;
use pastebin::ui::view_reply;

fn paste(id: &str, content: &str) -> FetchResponse {
    FetchResponse { id: id.to_string(), content: content.to_string(), created_at: 1, expires_at: None }
}

#[test]
fn index_page_returns_200() {
    let body = index_page();
    assert!(body.contains("<!DOCTYPE html>"), "Should contain DOCTYPE");
    assert!(body.contains("textarea"), "Should contain textarea");
    assert!(body.contains("id=\"submit-btn\">Paste"), "Should contain Paste button");
}

#[test]
fn unknown_route_returns_404() {
    let (status, body) = not_found_reply();
    assert_eq!(status, Status::NotFound);
    assert_eq!(status.code(), 404);
    assert!(body.contains("404"), "should render the 404 page");
}

#[test]
fn view_paste_returns_404_when_not_found() {
    match view_reply(fetch_reply(Ok(None))) {
        Err((status, body)) => {
            assert_eq!(status, Status::NotFound);
            assert!(body.is_empty());
        }
        Ok(_) => panic!("no page expected"),
    }
}

#[test]
fn view_paste_propagates_db_failure_as_500() {
    match view_reply(fetch_reply(Err(StoreError))) {
        Err((status, body)) => {
            assert_eq!(status, Status::InternalServerError);
            assert!(body.is_empty());
        }
        Ok(_) => panic!("no page expected"),
    }
}

#[test]
fn view_paste_returns_page_when_exists() {
    let body = view_reply(fetch_reply(Ok(Some(paste("Ab3_-z", "Test paste content"))))).unwrap();
    assert!(body.contains("<!DOCTYPE html>"), "Should contain DOCTYPE");
    assert!(body.contains("Test paste content"), "Should contain paste content");
    assert!(body.contains("Ab3_-z"), "Should contain paste ID");
}

#[test]
fn paste_view_escapes_html_in_content() {
    let payload = "<script>alert('xss')</script><b>bold</b>";
    let body = view_reply(Ok(paste("abc123", payload))).unwrap();
    let content_line = body.lines().find(|l| l.contains("paste-content")).expect("paste content region");
    assert!(
        !content_line.contains("<script>") && !content_line.contains("<b>"),
        "raw user markup must not be rendered: {}",
        content_line
    );
    assert!(
        content_line.contains("&#60;script&#62;") && content_line.contains("&#60;b&#62;"),
        "user markup should be HTML-escaped: {}",
        content_line
    );
}

#[test]
fn paste_page_escapes_each_special_character() {
    let body = paste_page("id", "a<b>&\"c'");
    assert!(body.contains(">a&#60;b&#62;&#38;&#34;c&#39;</pre>"), "{}", body);
}

#[test]
fn paste_page_escapes_the_id_too() {
    let body = paste_page("<i>", "text");
    assert!(!body.contains("<i>"));
    assert!(body.contains("&#60;i&#62;"));
}

#[test]
fn paste_page_keeps_non_ascii_text() {
    let body = paste_page("id", "こんにちは → ok");
    assert!(body.contains(">こんにちは → ok</pre>"));
}

#[test]
fn paste_page_is_the_page_of_the_fetched_paste() {
    assert_eq!(view_reply(Ok(paste("xyz", "hello"))).unwrap(), paste_page("xyz", "hello"));
}

fn unescape(text: &str) -> String {
    text.replace("&#34;", "\"")
        .replace("&#39;", "'")
        .replace("&#60;", "<")
        .replace("&#62;", ">")
        .replace("&#38;", "&")
}

#[test]
fn paste_view_shows_exact_content() {
    let content = "a &#60; b & \"c\" <d> 'e' &amp;";
    let body = paste_page("id", content);
    let start = body.find("class=\"paste-content\">").unwrap() + "class=\"paste-content\">".len();
    let end = body.rfind("</pre>").unwrap();
    let region = &body[start..end];
    assert_ne!(region, content);
    assert_eq!(unescape(region), content);
}
