//! Rendering gemtext as an HTML document.
//!
//! Each gemtext line becomes exactly one HTML line followed by a newline.
//! Textual content is HTML-escaped; the document title is taken verbatim
//! from a leading `# ` line of the raw source, and a configured stylesheet
//! URL is inserted verbatim (both are deliberate pass-throughs).

use vstd::prelude::*;

use crate::escape::{escape_node_seq, escape_node_text};
use crate::gemtext::{
    first_line, lemma_first_line_raw_is_prefix, parse_gemtext_spec, parse_gemtext_lines,
    parse_safe, GemtextLine, LineView,
};

verus! {

/// The HTML fragment emitted for one gemtext line, without the trailing
/// newline. A link without a caption uses its target as the caption.
pub open spec fn render_line_spec(n: LineView) -> Seq<char> {
    match n {
        LineView::Text(x) => "<p>"@ + escape_node_seq(x) + "</p>"@,
        LineView::Link(t, c) => {
            let cap = match c {
                Some(k) => k,
                None => t,
            };
            "<a href=\""@ + escape_node_seq(t) + "\">"@ + escape_node_seq(cap) + "</a><br>"@
        },
        LineView::Heading(x) => "<h1>"@ + escape_node_seq(x) + "</h1>"@,
        LineView::SubHeading(x) => "<h2>"@ + escape_node_seq(x) + "</h2>"@,
        LineView::SubSubHeading(x) => "<h3>"@ + escape_node_seq(x) + "</h3>"@,
        LineView::ListItem(x) => "<li>"@ + escape_node_seq(x) + "</li>"@,
        LineView::Blockquote(x) => "<pre>"@ + escape_node_seq(x) + "</pre>"@,
        LineView::Preformatted(x, _) => "<pre>"@ + escape_node_seq(x) + "</pre>"@,
        LineView::EmptyLine => "<br>"@,
    }
}

/// The body of the document: the fragments of all lines in order, each
/// followed by a newline.
pub open spec fn render_body_spec(nodes: Seq<LineView>) -> Seq<char>
    decreases nodes.len(),
{
    if nodes.len() == 0 {
        Seq::empty()
    } else {
        render_line_spec(nodes[0]) + "\n"@ + render_body_spec(nodes.skip(1))
    }
}

fn tagged(open_tag: &str, x: &str, close_tag: &str) -> (r: String)
    ensures
        r@ == open_tag@ + escape_node_seq(x@) + close_tag@,
{
    let mut out = String::from_str(open_tag);
    out.append(escape_node_text(x).as_str());
    out.append(close_tag);
    out
}

/// Renders one gemtext line as its HTML fragment.
pub fn render_line(n: &GemtextLine) -> (r: String)
    ensures
        r@ == render_line_spec(n@),
{
    match n {
        GemtextLine::Text(x) => tagged("<p>", x.as_str(), "</p>"),
        GemtextLine::Link(t, c) => {
            let mut out = String::from_str("<a href=\"");
            out.append(escape_node_text(t.as_str()).as_str());
            out.append("\">");
            let cap = match c {
                Some(k) => k.as_str(),
                None => t.as_str(),
            };
            out.append(escape_node_text(cap).as_str());
            out.append("</a><br>");
            out
        },
        GemtextLine::Heading(x) => tagged("<h1>", x.as_str(), "</h1>"),
        GemtextLine::SubHeading(x) => tagged("<h2>", x.as_str(), "</h2>"),
        GemtextLine::SubSubHeading(x) => tagged("<h3>", x.as_str(), "</h3>"),
        GemtextLine::ListItem(x) => tagged("<li>", x.as_str(), "</li>"),
        GemtextLine::Blockquote(x) => tagged("<pre>", x.as_str(), "</pre>"),
        GemtextLine::Preformatted(x, _) => tagged("<pre>", x.as_str(), "</pre>"),
        GemtextLine::EmptyLine => String::from_str("<br>"),
    }
}

proof fn lemma_render_body_take_succ(nodes: Seq<LineView>, i: int)
    requires
        0 <= i < nodes.len(),
    ensures
        render_body_spec(nodes.take(i + 1)) == render_body_spec(nodes.take(i))
            + render_line_spec(nodes[i]) + "\n"@,
    decreases i,
{
    if i == 0 {
        assert(nodes.take(1).skip(1) =~= Seq::<LineView>::empty());
        assert(nodes.take(1).len() == 1);
        assert(nodes.take(1)[0] == nodes[0]);
        assert(render_body_spec(nodes.take(1)) == render_line_spec(nodes.take(1)[0]) + "\n"@
            + render_body_spec(nodes.take(1).skip(1)));
        assert(render_body_spec(Seq::<LineView>::empty()) == Seq::<char>::empty());
        assert(render_body_spec(nodes.take(1)) =~= render_line_spec(nodes[0]) + "\n"@);
        assert(nodes.take(0) =~= Seq::<LineView>::empty());
        assert(render_body_spec(nodes.take(1)) =~= render_body_spec(nodes.take(0))
            + render_line_spec(nodes[0]) + "\n"@);
    } else {
        let t = nodes.skip(1);
        lemma_render_body_take_succ(t, i - 1);
        assert(nodes.take(i + 1).skip(1) =~= t.take(i));
        assert(nodes.take(i).skip(1) =~= t.take(i - 1));
        assert(render_body_spec(nodes.take(i + 1)) == render_line_spec(nodes[0]) + "\n"@
            + render_body_spec(t.take(i)));
        assert(render_body_spec(nodes.take(i)) == render_line_spec(nodes[0]) + "\n"@
            + render_body_spec(t.take(i - 1)));
        assert(render_body_spec(nodes.take(i + 1)) =~= render_body_spec(nodes.take(i))
            + render_line_spec(nodes[i]) + "\n"@);
    }
}

/// Renders the whole node sequence: one HTML line per node, each followed
/// by a newline.
pub fn render_body(nodes: &Vec<GemtextLine>) -> (r: String)
    ensures
        r@ == render_body_spec(nodes.deep_view()),
{
    let ghost all = nodes.deep_view();
    let mut out = String::new();
    let mut i: usize = 0;
    while i < nodes.len()
        invariant
            i <= nodes.len(),
            all == nodes.deep_view(),
            all.len() == nodes.len(),
            out@ == render_body_spec(all.take(i as int)),
        decreases nodes.len() - i,
    {
        let line = render_line(&nodes[i]);
        out.append(line.as_str());
        out.append("\n");
        proof {
            lemma_render_body_take_succ(all, i as int);
            assert(all[i as int] == nodes[i as int]@);
        }
        i = i + 1;
    }
    proof {
        assert(all.take(all.len() as int) =~= all);
    }
    out
}

/// Whether the source carries a document title: its first line is at least
/// three characters long and starts with `# `.
pub open spec fn has_title(s: Seq<char>) -> bool {
    let l = first_line(s);
    l.len() > 2 && l[0] == '#' && l[1] == ' '
}

/// The document title: everything on the first line after the `# ` marker.
pub open spec fn title_text(s: Seq<char>) -> Seq<char> {
    first_line(s).skip(2)
}

/// Finds the document title of a gemtext source, if it has one: the first
/// line must be at least three characters and begin with `# `; the title is
/// the raw remainder of that line, not escaped.
pub fn extract_title(src: &str) -> (r: Option<String>)
    ensures
        r is Some <==> has_title(src@),
        r matches Some(t) ==> t@ == title_text(src@),
{
    let n = src.unicode_len();
    let mut i: usize = 0;
    while i < n
        invariant
            i <= n,
            n == src@.len(),
            forall|j: int| 0 <= j < i ==> src@[j] != '\n',
        ensures
            i <= n,
            n == src@.len(),
            forall|j: int| 0 <= j < i ==> src@[j] != '\n',
            i < n ==> src@[i as int] == '\n',
        decreases n - i,
    {
        if src.get_char(i) == '\n' {
            break;
        }
        i = i + 1;
    }
    proof {
        lemma_first_line_raw_is_prefix(src@, i as int);
    }
    let mut end = i;
    if i < n && end > 0 && src.get_char(end - 1) == '\r' {
        end = end - 1;
        proof {
            assert(first_line(src@) =~= src@.take(end as int));
        }
    } else {
        proof {
            assert(first_line(src@) =~= src@.take(end as int));
        }
    }
    if end > 2 && src.get_char(0) == '#' && src.get_char(1) == ' ' {
        let rest = src.substring_char(2, end);
        proof {
            assert(title_text(src@) =~= rest@);
        }
        Some(String::from_str(rest))
    } else {
        assert(!has_title(src@));
        None
    }
}

/// The `<title>` element of the head, or nothing when the source has no
/// title. The title text is inserted verbatim, without escaping.
pub open spec fn title_fragment(src: Seq<char>) -> Seq<char> {
    if has_title(src) {
        "<title>"@ + title_text(src) + "</title>"@
    } else {
        Seq::empty()
    }
}

/// The stylesheet link of the head, or nothing when no stylesheet URL is
/// configured. The URL is trusted startup configuration and is inserted
/// verbatim.
pub open spec fn style_fragment(style: Seq<char>) -> Seq<char> {
    if style.len() > 0 {
        "<link rel=\"stylesheet\" href=\""@ + style + "\">"@
    } else {
        Seq::empty()
    }
}

/// The complete HTML document rendered from a gemtext source and a
/// configured stylesheet URL.
pub open spec fn render_document_spec(src: Seq<char>, style: Seq<char>) -> Seq<char> {
    "\n<!DOCTYPE HTML>\n\n<HTML>\n    <head>\n        <meta charset=\"UTF-8\">\n        <meta name=\"viewport\" content=\"width=device-width, initial-scale=1.0\" />\n        "@
        + title_fragment(src) + "\n        "@ + style_fragment(style)
        + "\n    </head>\n    <body>\n        <div id='outer'><div id='middle'><div id='inner'>\n        "@
        + render_body_spec(parse_gemtext_spec(src))
        + "\n        </div></div></div>\n    </body>\n</HTML>"@
}

/// Renders a gemtext source as a complete HTML document; the result is a
/// function of the source and the stylesheet URL alone. The source must be
/// one the parser can classify (see [`parse_safe`]); callers screen with
/// [`crate::gemtext::source_parses_safely`].
pub fn render_document(src: &str, style: &str) -> (r: String)
    requires
        parse_safe(src@),
    ensures
        r@ == render_document_spec(src@, style@),
{
    let mut out = String::from_str(
        "\n<!DOCTYPE HTML>\n\n<HTML>\n    <head>\n        <meta charset=\"UTF-8\">\n        <meta name=\"viewport\" content=\"width=device-width, initial-scale=1.0\" />\n        ",
    );
    match extract_title(src) {
        Some(t) => {
            out.append("<title>");
            out.append(t.as_str());
            out.append("</title>");
        },
        None => {},
    }
    out.append("\n        ");
    if style.unicode_len() > 0 {
        out.append("<link rel=\"stylesheet\" href=\"");
        out.append(style);
        out.append("\">");
    }
    out.append(
        "\n    </head>\n    <body>\n        <div id='outer'><div id='middle'><div id='inner'>\n        ",
    );
    let nodes = parse_gemtext_lines(src);
    let body = render_body(&nodes);
    out.append(body.as_str());
    out.append("\n        </div></div></div>\n    </body>\n</HTML>");
    out
}

/// Rendering is deterministic: two renderings of the same source with the
/// same stylesheet URL are identical. With the contract of
/// [`render_document`], two such calls return byte-identical documents.
pub proof fn lemma_render_deterministic(
    src1: Seq<char>,
    style1: Seq<char>,
    src2: Seq<char>,
    style2: Seq<char>,
)
    requires
        src1 == src2,
        style1 == style2,
    ensures
        render_document_spec(src1, style1) == render_document_spec(src2, style2),
{
}

} // verus!
