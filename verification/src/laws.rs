//! Properties of the service that span its functions.

use crate::config::load_error;
use crate::config::max_paste_size_text;
use crate::config::port_text;
use crate::config::host_text;
use crate::config::rate_limit_of;
use crate::config::field_errors;
use crate::config::EnvVars;
use crate::fetch::lookup_outcome;
use crate::html::html_escaped;
use crate::html::is_markup_char;
use crate::html::html_unescaped;
use crate::html::lemma_escaped_has_no_markup;
use crate::html::lemma_unescape_escaped;
use crate::number::all_digits;
use crate::number::bool_value;
use crate::number::decimal_value;
use crate::number::unsigned_value;
use crate::paste::announces;
use crate::paste::expiry_of;
use crate::paste::row_for_request;
use crate::schema::FetchResponse;
use crate::schema::request_valid;
use crate::schema::PasteRequest;
use crate::schema::PasteResponse;
use crate::schema::PasteRow;
use crate::schema::StoreError;
use crate::ui::paste_html;
use crate::ui::PASTE_HTML_BODY;
use crate::ui::PASTE_HTML_CLOSE;
use crate::ui::PASTE_HTML_HEADING;
use crate::ui::PASTE_HTML_OPEN;
use vstd::prelude::*;

verus! {

/// Whether `fetched` is the row `row` read back unchanged.
pub open spec fn reads_back(fetched: FetchResponse, row: PasteRow) -> bool {
    &&& fetched.id@ == row.id@
    &&& fetched.content@ == row.content@
    &&& fetched.created_at == row.created_at
    &&& fetched.expires_at == row.expires_at
}

/// What a lookup gives back of a paste: once the row made for a request is
/// stored and read back unchanged, the lookup answers with a paste that has
/// the id and timestamps the paste's reply announced, and the request's
/// content.
pub proof fn law_lookup_returns_created_paste(
    req: PasteRequest,
    id: Seq<char>,
    created_at: i64,
    row: PasteRow,
    reply: PasteResponse,
    fetched: FetchResponse,
)
    requires
        row_for_request(req, id, created_at, row),
        announces(reply, row),
        reads_back(fetched, row),
    ensures
        lookup_outcome(Ok::<Option<FetchResponse>, StoreError>(Some(fetched))) matches Ok(shown) && {
            &&& shown.id@ == reply.id@
            &&& shown.id@ == id
            &&& shown.content@ == req.content@
            &&& shown.created_at == reply.created_at
            &&& shown.expires_at == reply.expires_at
        },
{
}

/// A paste that expires lasts exactly its hours from its creation: it
/// expires `3600 * hours` seconds after it was made, so at creation for zero
/// hours and later for any positive number of hours.
pub proof fn law_expiry_is_hours_after_creation(created_at: i64, hours: i64, expires_at: Option<i64>)
    requires
        expiry_of(created_at, Some(hours), expires_at),
    ensures
        expires_at matches Some(e) && e - created_at == 3600 * hours,
        hours == 0 ==> expires_at == Some(created_at),
        hours > 0 ==> (expires_at matches Some(e) && e > created_at),
{
}

/// A paste without hours never expires.
pub proof fn law_no_hours_no_expiry(created_at: i64, expires_at: Option<i64>)
    requires
        expiry_of(created_at, None, expires_at),
    ensures
        expires_at is None,
{
}

/// The view of a paste never carries the paste's own markup: the view
/// (`paste_html`) holds the id and the content only escaped, and escaped
/// text holds no `<`, `>`, `"` or `'`.
pub proof fn law_paste_view_escapes_content(id: Seq<char>, content: Seq<char>)
    ensures
        forall|i: int|
            0 <= i < html_escaped(content).len() ==> !is_markup_char(#[trigger] html_escaped(content)[i]),
        forall|i: int| 0 <= i < html_escaped(id).len() ==> !is_markup_char(#[trigger] html_escaped(id)[i]),
{
    lemma_escaped_has_no_markup(content);
    lemma_escaped_has_no_markup(id);
}

/// The view of a paste shows its content exactly: read back as HTML, the
/// escaped content region gives the content, character for character.
pub proof fn law_paste_view_shows_exact_content(content: Seq<char>)
    ensures
        html_unescaped(html_escaped(content)) == content,
{
    lemma_unescape_escaped(content);
}

/// Rate limiting is off exactly when `PASTEBIN_RATE_LIMIT` is `false`.
pub proof fn law_rate_limit_off_only_for_false(env: EnvVars)
    ensures
        !rate_limit_of(env) <==> (env.rate_limit matches Some(s) && s@ == "false"@),
{
    reveal_strlit("true");
    reveal_strlit("false");
    if env.rate_limit is Some {
        let s = env.rate_limit.unwrap()@;
        if s == "false"@ {
            assert("false"@ != "true"@) by {
                assert("false"@[0] != "true"@[0]);
            }
            assert(bool_value(s) == Some(false));
        }
    }
}

/// Without settings of its own, the service listens on port 2729 of every
/// interface, takes pastes of up to 65536 bytes and limits the rate of its
/// clients; only the database URL must be given.
pub proof fn law_config_defaults(env: EnvVars)
    requires
        env.port is None,
        env.host is None,
        env.max_paste_size is None,
        env.rate_limit is None,
        env.database_url matches Some(url) && 1 <= url@.len(),
    ensures
        load_error(env) is None,
        unsigned_value(port_text(env)) == 2729,
        host_text(env) == "0.0.0.0"@,
        unsigned_value(max_paste_size_text(env)) == 65536,
        rate_limit_of(env),
{
    reveal_strlit("2729");
    reveal_strlit("0.0.0.0");
    reveal_strlit("65536");
    let p = port_text(env);
    assert(decimal_value(p) == 2729) by {
        reveal_with_fuel(decimal_value, 5);
    }
    let m = max_paste_size_text(env);
    assert(decimal_value(m) == 65536) by {
        reveal_with_fuel(decimal_value, 6);
    }
}

/// A paste request is accepted exactly when its content has at least one
/// character, however long it is.
pub proof fn law_content_needs_only_one_character(req: PasteRequest)
    ensures
        request_valid(req) <==> req.content@.len() >= 1,
{
}

/// The view of a paste shows the whole content: after the fixed head of the
/// page and the escaped id, and before the fixed tail, stands a region that
/// reads back as the content, character for character, whatever its length.
pub proof fn law_paste_view_shows_whole_content(id: Seq<char>, content: Seq<char>)
    ensures
        ({
            let page = paste_html(id, content);
            let start = (PASTE_HTML_OPEN@ + html_escaped(id) + PASTE_HTML_HEADING@ + html_escaped(id)
                + PASTE_HTML_BODY@).len();
            let end = page.len() - PASTE_HTML_CLOSE@.len();
            &&& 0 <= start <= end <= page.len()
            &&& html_unescaped(page.subrange(start as int, end as int)) == content
            &&& page.subrange(end as int, page.len() as int) == PASTE_HTML_CLOSE@
        }),
{
    let head = PASTE_HTML_OPEN@ + html_escaped(id) + PASTE_HTML_HEADING@ + html_escaped(id)
        + PASTE_HTML_BODY@;
    let body = html_escaped(content);
    let page = paste_html(id, content);
    assert(page =~= head + body + PASTE_HTML_CLOSE@);
    let end = page.len() - PASTE_HTML_CLOSE@.len();
    assert(page.subrange(head.len() as int, end as int) =~= body);
    assert(page.subrange(end as int, page.len() as int) =~= PASTE_HTML_CLOSE@);
    lemma_unescape_escaped(content);
}

/// The maximum paste size may be any `usize` from 1 up: with the other
/// variables at their defaults and a database URL, a size written in digits
/// whose value lies in `1..=usize::MAX` loads, and is the size taken.
pub proof fn law_any_positive_usize_size_loads(env: EnvVars)
    requires
        env.port is None,
        env.host is None,
        env.rate_limit is None,
        env.database_url matches Some(url) && 1 <= url@.len(),
        env.max_paste_size matches Some(s) && s@.len() > 0 && all_digits(s@) && 1 <= decimal_value(s@)
            <= usize::MAX,
    ensures
        load_error(env) is None,
        unsigned_value(max_paste_size_text(env)) == decimal_value(env.max_paste_size.unwrap()@),
{
    reveal_strlit("2729");
    reveal_strlit("0.0.0.0");
    let p = port_text(env);
    assert(decimal_value(p) == 2729) by {
        reveal_with_fuel(decimal_value, 5);
    }
    let s = env.max_paste_size.unwrap()@;
    assert(s[0] != '+') by {
        assert(crate::number::is_digit(s[0]));
    }
}

/// The rules on the port and on the maximum paste size refuse only zero:
/// every other `u16` port and every other `usize` size passes.
pub proof fn law_numeric_rules_refuse_only_zero(port: int, host_len: nat, url_len: nat, size: int)
    requires
        0 <= port <= u16::MAX,
        0 <= size <= usize::MAX,
    ensures
        field_errors(port, host_len, url_len, size).port <==> port == 0,
        field_errors(port, host_len, url_len, size).max_paste_size <==> size == 0,
        field_errors(port, host_len, url_len, size).host <==> !(1 <= host_len <= 255),
        field_errors(port, host_len, url_len, size).database_url <==> url_len == 0,
{
}

} // verus!
