//! The HTML pages: the form to create a paste, the view of a paste, and the
//! page for what does not exist.

use crate::html::escape_html;
use crate::html::html_escaped;
use crate::schema::FetchResponse;
use crate::status::Status;
use vstd::prelude::*;

verus! {

/// The page with the form to create a paste.
pub const INDEX_HTML: &'static str = "<!DOCTYPE html>
<html lang=\"en\">
<head>
<meta charset=\"utf-8\">
<title>pastebin</title>
</head>
<body>
<main>
<h1>pastebin</h1>
<textarea id=\"content\" rows=\"20\" cols=\"80\" placeholder=\"Paste your text here\"></textarea>
<p><label>Expires in hours <input id=\"expires-in\" type=\"number\" min=\"0\"></label></p>
<button type=\"button\" id=\"submit-btn\">Paste</button>
<p id=\"error\"></p>
</main>
<script>
document.getElementById(\"submit-btn\").addEventListener(\"click\", async () => {
  const content = document.getElementById(\"content\").value;
  const hours = document.getElementById(\"expires-in\").value;
  const body = { content: content };
  if (hours !== \"\") { body.expires_in = parseInt(hours, 10); }
  const response = await fetch(\"/api/paste\", {
    method: \"POST\",
    headers: { \"Content-Type\": \"application/json\" },
    body: JSON.stringify(body),
  });
  if (response.status === 201) {
    const paste = await response.json();
    window.location.href = \"/fetch/\" + paste.id;
  } else {
    document.getElementById(\"error\").textContent = \"Could not create the paste (\" + response.status + \")\";
  }
});
</script>
</body>
</html>
";

/// The page shown for anything that does not exist.
pub const NOT_FOUND_HTML: &'static str = "<!DOCTYPE html>
<html lang=\"en\">
<head>
<meta charset=\"utf-8\">
<title>404 - not found</title>
</head>
<body>
<main>
<h1>404</h1>
<p>There is nothing here.</p>
<p><a href=\"/\">Create a paste</a></p>
</main>
</body>
</html>
";

/// The view of a paste, up to its id in the title.
pub const PASTE_HTML_OPEN: &'static str = "<!DOCTYPE html>
<html lang=\"en\">
<head>
<meta charset=\"utf-8\">
<title>paste ";

/// The view of a paste, from its title to its id in the heading.
pub const PASTE_HTML_HEADING: &'static str = "</title>
</head>
<body>
<main>
<h1>paste <span id=\"paste-id\">";

/// The view of a paste, from its heading to its content.
pub const PASTE_HTML_BODY: &'static str = "</span></h1>
<button type=\"button\" id=\"copy-btn\">Copy</button>
<pre id=\"paste-content\" class=\"paste-content\">";

/// The view of a paste, after its content.
pub const PASTE_HTML_CLOSE: &'static str = "</pre>
</main>
<script>
document.getElementById(\"copy-btn\").addEventListener(\"click\", () => {
  navigator.clipboard.writeText(document.getElementById(\"paste-content\").textContent);
});
</script>
</body>
</html>
";

/// The view of the paste `id` with the text `content`, both escaped.
pub open spec fn paste_html(id: Seq<char>, content: Seq<char>) -> Seq<char> {
    PASTE_HTML_OPEN@ + html_escaped(id) + PASTE_HTML_HEADING@ + html_escaped(id) + PASTE_HTML_BODY@
        + html_escaped(content) + PASTE_HTML_CLOSE@
}

/// Renders the page with the form to create a paste.
pub fn index_page() -> (page: String)
    ensures
        page@ == INDEX_HTML@,
{
    String::from_str(INDEX_HTML)
}

/// Renders the page for what does not exist.
pub fn not_found_page() -> (page: String)
    ensures
        page@ == NOT_FOUND_HTML@,
{
    String::from_str(NOT_FOUND_HTML)
}

/// Renders the view of the paste `id` with the text `content`.
pub fn paste_page(id: &str, content: &str) -> (page: String)
    ensures
        page@ == paste_html(id@, content@),
{
    let escaped_id = escape_html(id);
    let escaped_content = escape_html(content);
    let mut page = String::from_str(PASTE_HTML_OPEN);
    page.append(escaped_id.as_str());
    page.append(PASTE_HTML_HEADING);
    page.append(escaped_id.as_str());
    page.append(PASTE_HTML_BODY);
    page.append(escaped_content.as_str());
    page.append(PASTE_HTML_CLOSE);
    page
}

/// The reply to a request for the view of a paste, given the reply of the
/// lookup: the paste's view, or the lookup's status with an empty body when
/// the paste is missing or the database failed.
pub fn view_reply(fetched: Result<FetchResponse, Status>) -> (r: Result<String, (Status, String)>)
    ensures
        fetched matches Ok(p) ==> (r matches Ok(page) && page@ == paste_html(p.id@, p.content@)),
        fetched matches Err(s) ==> (r matches Err((status, page)) && status == s && page@.len() == 0),
{
    match fetched {
        Ok(paste) => Ok(paste_page(paste.id.as_str(), paste.content.as_str())),
        Err(status) => Err((status, String::new())),
    }
}

/// The reply to a request for anything that does not exist: `404 Not Found`
/// with its page.
pub fn not_found_reply() -> (r: (Status, String))
    ensures
        r.0 == Status::NotFound,
        r.1@ == NOT_FOUND_HTML@,
{
    (Status::NotFound, not_found_page())
}

} // verus!
