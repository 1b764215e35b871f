//! HTML escaping, by the `askama` crate's HTML escaper.

use vstd::prelude::*;

verus! {

/// What askama's HTML escaper writes for one character: the five characters
/// `"`, `&`, `'`, `<` and `>` become decimal character references, any other
/// character stays as it is.
pub open spec fn escaped_char(c: char) -> Seq<char> {
    if c == '"' {
        seq!['&', '#', '3', '4', ';']
    } else if c == '&' {
        seq!['&', '#', '3', '8', ';']
    } else if c == '\'' {
        seq!['&', '#', '3', '9', ';']
    } else if c == '<' {
        seq!['&', '#', '6', '0', ';']
    } else if c == '>' {
        seq!['&', '#', '6', '2', ';']
    } else {
        seq![c]
    }
}

/// A text with each of its characters escaped for HTML.
pub open spec fn html_escaped(s: Seq<char>) -> Seq<char>
    decreases s.len(),
{
    if s.len() == 0 {
        Seq::empty()
    } else {
        html_escaped(s.drop_last()) + escaped_char(s.last())
    }
}

/// Whether `c` can open or close markup, or end an attribute value.
pub open spec fn is_markup_char(c: char) -> bool {
    c == '<' || c == '>' || c == '"' || c == '\''
}

/// Calls `askama::filters::escape` with the `askama::filters::Html` escaper
/// and renders the result. askama's source replaces each of the bytes `"`,
/// `&`, `'`, `<`, `>` by `&#34;`, `&#38;`, `&#39;`, `&#60;`, `&#62;` and copies
/// every other byte; as those bytes never occur inside a multi-byte
/// character, that is `html_escaped` on the characters.
#[verifier::external_body]
pub(crate) fn escape_html(text: &str) -> (r: String)
    ensures
        r@ == html_escaped(text@),
{
    match askama::filters::escape(text, askama::filters::Html) {
        Ok(safe) => safe.to_string(),
        Err(never) => match never {},
    }
}

/// An escaped text holds no character that opens or closes markup or ends an
/// attribute value, whatever the text was.
pub proof fn lemma_escaped_has_no_markup(s: Seq<char>)
    ensures
        forall|i: int| 0 <= i < html_escaped(s).len() ==> !is_markup_char(#[trigger] html_escaped(s)[i]),
    decreases s.len(),
{
    if s.len() > 0 {
        lemma_escaped_has_no_markup(s.drop_last());
        let prev = html_escaped(s.drop_last());
        let tail = escaped_char(s.last());
        assert(html_escaped(s) == prev + tail);
        assert forall|i: int| 0 <= i < html_escaped(s).len() implies !is_markup_char(
            #[trigger] html_escaped(s)[i],
        ) by {
            if i < prev.len() {
                assert(html_escaped(s)[i] == prev[i]);
            } else {
                assert(html_escaped(s)[i] == tail[i - prev.len()]);
            }
        }
    }
}

/// Whether `c` is one of the characters the escaper replaces.
pub open spec fn is_escaped_char(c: char) -> bool {
    c == '"' || c == '&' || c == '\'' || c == '<' || c == '>'
}

/// Reads escaped HTML text back: each of the five character references that
/// the escaper writes stands for its character, every other character for
/// itself.
pub open spec fn html_unescaped(s: Seq<char>) -> Seq<char>
    decreases s.len(),
{
    if s.len() == 0 {
        Seq::empty()
    } else if s.len() >= 5 && s[0] == '&' && s[1] == '#' && s[4] == ';' && (
    (s[2] == '3' && (s[3] == '4' || s[3] == '8' || s[3] == '9')) || (s[2] == '6' && (s[3] == '0'
        || s[3] == '2'))) {
        let c = if s[2] == '3' && s[3] == '4' {
            '"'
        } else if s[2] == '3' && s[3] == '8' {
            '&'
        } else if s[2] == '3' {
            '\''
        } else if s[3] == '0' {
            '<'
        } else {
            '>'
        };
        seq![c] + html_unescaped(s.subrange(5, s.len() as int))
    } else {
        seq![s[0]] + html_unescaped(s.subrange(1, s.len() as int))
    }
}

/// Escaping a text piece by piece escapes the whole text.
pub proof fn lemma_escaped_concat(a: Seq<char>, b: Seq<char>)
    ensures
        html_escaped(a + b) == html_escaped(a) + html_escaped(b),
    decreases b.len(),
{
    if b.len() == 0 {
        assert(a + b =~= a);
        assert(html_escaped(a) + html_escaped(b) =~= html_escaped(a));
    } else {
        lemma_escaped_concat(a, b.drop_last());
        assert((a + b).drop_last() =~= a + b.drop_last());
        assert((a + b).last() == b.last());
        assert(html_escaped(a + b) =~= html_escaped(a) + html_escaped(b));
    }
}

/// Escaping a text escapes its first character, then the rest.
pub proof fn lemma_escaped_front(s: Seq<char>)
    requires
        s.len() > 0,
    ensures
        html_escaped(s) == escaped_char(s[0]) + html_escaped(s.subrange(1, s.len() as int)),
{
    let rest = s.subrange(1, s.len() as int);
    assert(s =~= seq![s[0]] + rest);
    let one = seq![s[0]];
    lemma_escaped_concat(one, rest);
    assert(one.drop_last() =~= Seq::<char>::empty());
    assert(one.last() == s[0]);
    assert(html_escaped(one.drop_last()) =~= Seq::<char>::empty());
    assert(html_escaped(one) =~= escaped_char(s[0]));
}

/// Escaping loses nothing: reading an escaped text back gives the text.
pub proof fn lemma_unescape_escaped(s: Seq<char>)
    ensures
        html_unescaped(html_escaped(s)) == s,
    decreases s.len(),
{
    if s.len() > 0 {
        let rest = s.subrange(1, s.len() as int);
        lemma_escaped_front(s);
        lemma_unescape_escaped(rest);
        let e = html_escaped(s);
        let head = escaped_char(s[0]);
        assert(e == head + html_escaped(rest));
        if is_escaped_char(s[0]) {
            assert(head.len() == 5);
            assert(e.subrange(5, e.len() as int) =~= html_escaped(rest));
            assert(e[0] == head[0] && e[1] == head[1] && e[2] == head[2] && e[3] == head[3] && e[4]
                == head[4]);
        } else {
            assert(head =~= seq![s[0]]);
            assert(e.subrange(1, e.len() as int) =~= html_escaped(rest));
            assert(e[0] == s[0]);
        }
        assert(html_unescaped(e) =~= s);
    } else {
        assert(html_escaped(s) =~= Seq::<char>::empty());
    }
}

} // verus!
