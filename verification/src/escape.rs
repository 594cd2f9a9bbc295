//! HTML escaping of text taken from upstream Gemini servers.
//!
//! Two disciplines are used. Rendered gemtext nodes escape the markup
//! characters and both quote characters, so upstream text can break out of
//! neither a text position nor a quoted attribute. Error bodies, which hold
//! no attributes, escape the three markup characters.

use vstd::prelude::*;

verus! {

/// What one character becomes in escaped text.
pub open spec fn escape_char(c: char) -> Seq<char> {
    if c == '&' {
        "&amp;"@
    } else if c == '<' {
        "&lt;"@
    } else if c == '>' {
        "&gt;"@
    } else {
        seq![c]
    }
}

/// The escaped form of a whole text: each character replaced by
/// [`escape_char`], in order.
pub open spec fn escape_seq(s: Seq<char>) -> Seq<char>
    decreases s.len(),
{
    if s.len() == 0 {
        Seq::empty()
    } else {
        escape_char(s[0]) + escape_seq(s.skip(1))
    }
}

/// Whether one of the three character entities starts at index `i` of `s`.
pub open spec fn entity_starts_at(s: Seq<char>, i: int) -> bool {
    ||| (i + 5 <= s.len() && s.subrange(i, i + 5) == "&amp;"@)
    ||| (i + 4 <= s.len() && s.subrange(i, i + 4) == "&lt;"@)
    ||| (i + 4 <= s.len() && s.subrange(i, i + 4) == "&gt;"@)
}

/// Text free of raw markup: it holds no `<` or `>` at all, and every `&`
/// in it begins a character entity.
pub open spec fn no_raw_markup(s: Seq<char>) -> bool {
    &&& forall|i: int| 0 <= i < s.len() ==> s[i] != '<' && s[i] != '>'
    &&& forall|i: int| 0 <= i < s.len() && s[i] == '&' ==> entity_starts_at(s, i)
}

/// Escaped text never contains raw markup. The renderer puts every piece
/// of upstream text between its structural tags as [`escape_seq`] of that
/// text, so no text node can inject markup of its own.
pub proof fn lemma_escape_no_raw_markup(s: Seq<char>)
    ensures
        no_raw_markup(escape_seq(s)),
    decreases s.len(),
{
    reveal_strlit("&amp;");
    reveal_strlit("&lt;");
    reveal_strlit("&gt;");
    if s.len() == 0 {
    } else {
        lemma_escape_no_raw_markup(s.skip(1));
        let head = escape_char(s[0]);
        let rest = escape_seq(s.skip(1));
        let e = escape_seq(s);
        assert(e == head + rest);
        assert forall|i: int| 0 <= i < e.len() implies e[i] != '<' && e[i] != '>' by {
            if i >= head.len() {
                assert(e[i] == rest[i - head.len()]);
            }
        }
        assert forall|i: int| 0 <= i < e.len() && e[i] == '&' implies entity_starts_at(e, i) by {
            if i < head.len() {
                if s[0] == '&' {
                    assert(i == 0);
                    assert(e.subrange(0, 5) =~= head);
                } else if s[0] == '<' {
                    assert(i == 0);
                    assert(e.subrange(0, 4) =~= head);
                } else if s[0] == '>' {
                    assert(i == 0);
                    assert(e.subrange(0, 4) =~= head);
                } else {
                    assert(e[i] == s[0]);
                }
            } else {
                let j = i - head.len();
                assert(rest[j] == '&');
                assert(entity_starts_at(rest, j));
                if j + 5 <= rest.len() && rest.subrange(j, j + 5) == "&amp;"@ {
                    assert(e.subrange(i, i + 5) =~= rest.subrange(j, j + 5));
                } else if j + 4 <= rest.len() && rest.subrange(j, j + 4) == "&lt;"@ {
                    assert(e.subrange(i, i + 4) =~= rest.subrange(j, j + 4));
                } else {
                    assert(e.subrange(i, i + 4) =~= rest.subrange(j, j + 4));
                }
            }
        }
    }
}

/// Relies on html_escape::encode_text: it replaces `&` with `&amp;`,
/// `<` with `&lt;` and `>` with `&gt;`, and keeps every other character.
#[verifier::external_body]
pub(crate) fn escape_text(s: &str) -> (r: String)
    ensures
        r@ == escape_seq(s@),
{
    html_escape::encode_text(s).into_owned()
}

/// What one character becomes in escaped node text: the three markup
/// characters and both quote characters are replaced by entities.
pub open spec fn escape_node_char(c: char) -> Seq<char> {
    if c == '&' {
        "&amp;"@
    } else if c == '<' {
        "&lt;"@
    } else if c == '>' {
        "&gt;"@
    } else if c == '"' {
        "&quot;"@
    } else if c == '\'' {
        "&#x27;"@
    } else {
        seq![c]
    }
}

/// The escaped form of rendered node text: each character replaced by
/// [`escape_node_char`], in order.
pub open spec fn escape_node_seq(s: Seq<char>) -> Seq<char>
    decreases s.len(),
{
    if s.len() == 0 {
        Seq::empty()
    } else {
        escape_node_char(s[0]) + escape_node_seq(s.skip(1))
    }
}

/// Whether one of the five node-text character entities starts at index
/// `i` of `s`.
pub open spec fn node_entity_starts_at(s: Seq<char>, i: int) -> bool {
    ||| (i + 5 <= s.len() && s.subrange(i, i + 5) == "&amp;"@)
    ||| (i + 4 <= s.len() && s.subrange(i, i + 4) == "&lt;"@)
    ||| (i + 4 <= s.len() && s.subrange(i, i + 4) == "&gt;"@)
    ||| (i + 6 <= s.len() && s.subrange(i, i + 6) == "&quot;"@)
    ||| (i + 6 <= s.len() && s.subrange(i, i + 6) == "&#x27;"@)
}

/// Node text free of raw markup: it holds no `<`, `>`, `"` or `'` at all,
/// and every `&` in it begins a character entity. Such text can neither
/// open a tag nor close the quoted attribute it stands in.
pub open spec fn no_raw_node_markup(s: Seq<char>) -> bool {
    &&& forall|i: int|
        0 <= i < s.len() ==> s[i] != '<' && s[i] != '>' && s[i] != '"' && s[i] != '\''
    &&& forall|i: int| 0 <= i < s.len() && s[i] == '&' ==> node_entity_starts_at(s, i)
}

/// Escaped node text never contains raw markup or a raw quote. The
/// renderer inserts every piece of upstream text, in text position and in
/// the `href` attribute alike, as [`escape_node_seq`] of that text, so no
/// node can inject markup or escape its attribute.
pub proof fn lemma_escape_node_no_raw_markup(s: Seq<char>)
    ensures
        no_raw_node_markup(escape_node_seq(s)),
    decreases s.len(),
{
    reveal_strlit("&amp;");
    reveal_strlit("&lt;");
    reveal_strlit("&gt;");
    reveal_strlit("&quot;");
    reveal_strlit("&#x27;");
    if s.len() == 0 {
    } else {
        lemma_escape_node_no_raw_markup(s.skip(1));
        let head = escape_node_char(s[0]);
        let rest = escape_node_seq(s.skip(1));
        let e = escape_node_seq(s);
        assert(e == head + rest);
        assert forall|i: int|
            0 <= i < e.len() implies e[i] != '<' && e[i] != '>' && e[i] != '"' && e[i]
            != '\'' by {
            if i >= head.len() {
                assert(e[i] == rest[i - head.len()]);
            }
        }
        assert forall|i: int| 0 <= i < e.len() && e[i] == '&' implies node_entity_starts_at(
            e,
            i,
        ) by {
            if i < head.len() {
                if s[0] == '&' {
                    assert(i == 0);
                    assert(e.subrange(0, 5) =~= head);
                } else if s[0] == '<' || s[0] == '>' {
                    assert(i == 0);
                    assert(e.subrange(0, 4) =~= head);
                } else if s[0] == '"' || s[0] == '\'' {
                    assert(i == 0);
                    assert(e.subrange(0, 6) =~= head);
                } else {
                    assert(e[i] == s[0]);
                }
            } else {
                let j = i - head.len();
                assert(rest[j] == '&');
                assert(node_entity_starts_at(rest, j));
                if j + 5 <= rest.len() && rest.subrange(j, j + 5) == "&amp;"@ {
                    assert(e.subrange(i, i + 5) =~= rest.subrange(j, j + 5));
                } else if j + 4 <= rest.len() && rest.subrange(j, j + 4) == "&lt;"@ {
                    assert(e.subrange(i, i + 4) =~= rest.subrange(j, j + 4));
                } else if j + 4 <= rest.len() && rest.subrange(j, j + 4) == "&gt;"@ {
                    assert(e.subrange(i, i + 4) =~= rest.subrange(j, j + 4));
                } else if j + 6 <= rest.len() && rest.subrange(j, j + 6) == "&quot;"@ {
                    assert(e.subrange(i, i + 6) =~= rest.subrange(j, j + 6));
                } else {
                    assert(e.subrange(i, i + 6) =~= rest.subrange(j, j + 6));
                }
            }
        }
    }
}

/// Relies on html_escape::encode_quoted_attribute: it replaces `&` with
/// `&amp;`, `<` with `&lt;`, `>` with `&gt;`, `"` with `&quot;` and `'`
/// with `&#x27;`, and keeps every other character.
#[verifier::external_body]
pub(crate) fn escape_node_text(s: &str) -> (r: String)
    ensures
        r@ == escape_node_seq(s@),
{
    html_escape::encode_quoted_attribute(s).into_owned()
}

} // verus!
