//! Gemtext line nodes.
//!
//! A gemtext document is an ordered sequence of typed lines. The lexical
//! classification of lines is done by the gmi crate's parser; this module
//! holds the crate's own node type, its mathematical view, and the trusted
//! call into that parser.

use vstd::prelude::*;

verus! {

/// One line of a gemtext document, as classified by the parser.
pub enum GemtextLine {
    /// A plain text line.
    Text(String),
    /// A link line: target, then an optional display caption.
    Link(String, Option<String>),
    /// A level-1 heading.
    Heading(String),
    /// A level-2 heading.
    SubHeading(String),
    /// A level-3 heading.
    SubSubHeading(String),
    /// A list item.
    ListItem(String),
    /// A blockquote line.
    Blockquote(String),
    /// Preformatted text, with an optional alt-text tag.
    Preformatted(String, Option<String>),
    /// An empty line.
    EmptyLine,
}

/// The mathematical view of one gemtext line.
pub ghost enum LineView {
    Text(Seq<char>),
    Link(Seq<char>, Option<Seq<char>>),
    Heading(Seq<char>),
    SubHeading(Seq<char>),
    SubSubHeading(Seq<char>),
    ListItem(Seq<char>),
    Blockquote(Seq<char>),
    Preformatted(Seq<char>, Option<Seq<char>>),
    EmptyLine,
}

impl View for GemtextLine {
    type V = LineView;

    open spec fn view(&self) -> LineView {
        match self {
            GemtextLine::Text(x) => LineView::Text(x@),
            GemtextLine::Link(t, c) => LineView::Link(
                t@,
                match c {
                    Some(k) => Some(k@),
                    None => None,
                },
            ),
            GemtextLine::Heading(x) => LineView::Heading(x@),
            GemtextLine::SubHeading(x) => LineView::SubHeading(x@),
            GemtextLine::SubSubHeading(x) => LineView::SubSubHeading(x@),
            GemtextLine::ListItem(x) => LineView::ListItem(x@),
            GemtextLine::Blockquote(x) => LineView::Blockquote(x@),
            GemtextLine::Preformatted(x, a) => LineView::Preformatted(
                x@,
                match a {
                    Some(k) => Some(k@),
                    None => None,
                },
            ),
            GemtextLine::EmptyLine => LineView::EmptyLine,
        }
    }
}

impl DeepView for GemtextLine {
    type V = LineView;

    open spec fn deep_view(&self) -> LineView {
        self.view()
    }
}

/// The first line of the source: the characters before the first newline
/// (the whole text when there is none).
pub open spec fn first_line_raw(s: Seq<char>) -> Seq<char>
    decreases s.len(),
{
    if s.len() == 0 {
        Seq::empty()
    } else if s[0] == '\n' {
        Seq::empty()
    } else {
        seq![s[0]] + first_line_raw(s.skip(1))
    }
}

/// The first line as line-by-line reading yields it: a carriage return is
/// stripped when the line ends in a carriage return followed by a newline.
pub open spec fn first_line(s: Seq<char>) -> Seq<char> {
    let raw = first_line_raw(s);
    if raw.len() < s.len() && raw.len() > 0 && raw[raw.len() - 1] == '\r' {
        raw.take(raw.len() - 1)
    } else {
        raw
    }
}

pub(crate) proof fn lemma_first_line_raw_is_prefix(s: Seq<char>, i: int)
    requires
        0 <= i <= s.len(),
        forall|j: int| 0 <= j < i ==> s[j] != '\n',
        i == s.len() || s[i] == '\n',
    ensures
        first_line_raw(s) == s.take(i),
    decreases i,
{
    if s.len() == 0 {
        assert(s.take(0) =~= Seq::<char>::empty());
    } else if s[0] == '\n' {
        assert(i == 0);
        assert(s.take(0) =~= Seq::<char>::empty());
    } else {
        lemma_first_line_raw_is_prefix(s.skip(1), i - 1);
        assert(s.skip(1).take(i - 1) =~= s.take(i).skip(1));
        assert(first_line_raw(s) == seq![s[0]] + s.skip(1).take(i - 1));
        assert(first_line_raw(s) =~= s.take(i));
    }
}

proof fn lemma_first_line_raw_len(s: Seq<char>)
    ensures
        first_line_raw(s).len() <= s.len(),
    decreases s.len(),
{
    if s.len() == 0 {
    } else if s[0] == '\n' {
    } else {
        lemma_first_line_raw_len(s.skip(1));
    }
}

/// The lines of a source text, split at newlines, each stripped of a
/// carriage return standing right before the newline.
pub open spec fn split_lines(s: Seq<char>) -> Seq<Seq<char>>
    decreases s.len(),
    via split_lines_decreases
{
    if s.len() == 0 {
        Seq::empty()
    } else {
        let raw = first_line_raw(s);
        if raw.len() < s.len() {
            seq![first_line(s)] + split_lines(s.skip(raw.len() as int + 1))
        } else {
            seq![first_line(s)]
        }
    }
}

#[via_fn]
proof fn split_lines_decreases(s: Seq<char>) {
    lemma_first_line_raw_len(s);
}

/// A line that opens or closes a preformatted block: its first three
/// characters are backticks.
pub open spec fn line_is_fence(l: Seq<char>) -> bool {
    l.len() >= 3 && l[0] == '`' && l[1] == '`' && l[2] == '`'
}

/// A line holding nothing but `=`, `*` or `>`. Outside preformatted blocks
/// the gemtext parser cannot classify such a line and panics on it.
pub open spec fn lone_marker_line(l: Seq<char>) -> bool {
    l.len() == 1 && (l[0] == '=' || l[0] == '*' || l[0] == '>')
}

/// Whether the parser classifies these lines without panicking, entered
/// with the given preformatted state. Inside a block every line is passed
/// through verbatim and a fence closes the block; outside one, a fence
/// opens a block and a lone marker line is the one panic case.
pub open spec fn lines_parse_safe(ls: Seq<Seq<char>>, in_pre: bool) -> bool
    decreases ls.len(),
{
    if ls.len() == 0 {
        true
    } else if in_pre {
        lines_parse_safe(ls.skip(1), !line_is_fence(ls[0]))
    } else if lone_marker_line(ls[0]) {
        false
    } else {
        lines_parse_safe(ls.skip(1), line_is_fence(ls[0]))
    }
}

/// A source the gemtext parser classifies without panicking: no line of it
/// outside a preformatted block is a bare `=`, `*` or `>`.
pub open spec fn parse_safe(s: Seq<char>) -> bool {
    lines_parse_safe(split_lines(s), false)
}

proof fn lemma_split_lines_step(s: Seq<char>, j: int)
    requires
        0 < s.len(),
        0 <= j <= s.len(),
        forall|k: int| 0 <= k < j ==> s[k] != '\n',
        j == s.len() || s[j] == '\n',
    ensures
        first_line(s) == (if j < s.len() && j > 0 && s[j - 1] == '\r' {
            s.take(j - 1)
        } else {
            s.take(j)
        }),
        j < s.len() ==> split_lines(s) == seq![first_line(s)] + split_lines(s.skip(j + 1)),
        j == s.len() ==> split_lines(s) == seq![first_line(s)],
{
    lemma_first_line_raw_is_prefix(s, j);
    assert(s.take(j).len() == j);
    if j < s.len() && j > 0 && s[j - 1] == '\r' {
        assert(s.take(j).take(j - 1) =~= s.take(j - 1));
    }
}

/// Decides [`parse_safe`] for a source text.
pub fn source_parses_safely(src: &str) -> (r: bool)
    ensures
        r == parse_safe(src@),
{
    let n = src.unicode_len();
    let mut pos: usize = 0;
    let mut in_pre = false;
    proof {
        assert(src@.skip(0) =~= src@);
    }
    while pos < n
        invariant
            pos <= n,
            n == src@.len(),
            parse_safe(src@) == lines_parse_safe(split_lines(src@.skip(pos as int)), in_pre),
        decreases n - pos,
    {
        let ghost suffix = src@.skip(pos as int);
        let mut j: usize = pos;
        while j < n
            invariant
                pos <= j <= n,
                n == src@.len(),
                forall|k: int| pos <= k < j ==> src@[k] != '\n',
            ensures
                pos <= j <= n,
                n == src@.len(),
                forall|k: int| pos <= k < j ==> src@[k] != '\n',
                j < n ==> src@[j as int] == '\n',
            decreases n - j,
        {
            if src.get_char(j) == '\n' {
                break;
            }
            j = j + 1;
        }
        let mut e = j;
        if j < n && e > pos && src.get_char(e - 1) == '\r' {
            e = e - 1;
        }
        proof {
            assert forall|k: int| 0 <= k < j - pos implies suffix[k] != '\n' by {
                assert(suffix[k] == src@[pos + k]);
            }
            lemma_split_lines_step(suffix, j - pos);
            assert(first_line(suffix) =~= src@.subrange(pos as int, e as int));
        }
        let ghost line = first_line(suffix);
        let line_len = e - pos;
        let lone: bool = if line_len == 1 {
            let c = src.get_char(pos);
            c == '=' || c == '*' || c == '>'
        } else {
            false
        };
        let fence: bool = if line_len >= 3 {
            src.get_char(pos) == '`' && src.get_char(pos + 1) == '`' && src.get_char(pos + 2)
                == '`'
        } else {
            false
        };
        proof {
            assert(line.len() == line_len);
            assert(lone == lone_marker_line(line));
            assert(fence == line_is_fence(line));
        }
        if !in_pre && lone {
            return false;
        }
        let new_in_pre = if in_pre {
            !fence
        } else {
            fence
        };
        proof {
            let ls = split_lines(suffix);
            assert(ls[0] == line);
            if j < n {
                assert(ls.skip(1) =~= split_lines(suffix.skip(j - pos + 1)));
                assert(src@.skip((j + 1) as int) =~= suffix.skip(j - pos + 1));
            } else {
                assert(ls.skip(1) =~= Seq::<Seq<char>>::empty());
                assert(src@.skip(n as int) =~= Seq::<char>::empty());
            }
        }
        in_pre = new_in_pre;
        if j < n {
            pos = j + 1;
        } else {
            pos = n;
        }
    }
    proof {
        assert(src@.skip(pos as int) =~= Seq::<char>::empty());
    }
    true
}

/// The sequence of line nodes that the gemtext parser yields for a source
/// text. The parser's classification rules are taken as a black box: the
/// result is a function of the source text alone.
pub uninterp spec fn parse_gemtext_spec(s: Seq<char>) -> Seq<LineView>;

/// Relies on gmi::gemtext::parse_gemtext: it classifies each line of the
/// source into one node, in document order, and the result is a function
/// of the source text alone. On a line holding nothing but `=`, `*` or `>`
/// outside a preformatted block that parser panics, so such sources are
/// excluded here; every caller screens with [`parse_safe`].
#[verifier::external_body]
pub(crate) fn parse_gemtext_lines(s: &str) -> (r: Vec<GemtextLine>)
    requires
        parse_safe(s@),
    ensures
        r.deep_view() == parse_gemtext_spec(s@),
{
    gmi::gemtext::parse_gemtext(s)
        .into_iter()
        .map(|n| match n {
            gmi::gemtext::GemtextNode::Text(x) => GemtextLine::Text(x),
            gmi::gemtext::GemtextNode::Link(t, c) => GemtextLine::Link(t, c),
            gmi::gemtext::GemtextNode::Heading(x) => GemtextLine::Heading(x),
            gmi::gemtext::GemtextNode::SubHeading(x) => GemtextLine::SubHeading(x),
            gmi::gemtext::GemtextNode::SubSubHeading(x) => GemtextLine::SubSubHeading(x),
            gmi::gemtext::GemtextNode::ListItem(x) => GemtextLine::ListItem(x),
            gmi::gemtext::GemtextNode::Blockquote(x) => GemtextLine::Blockquote(x),
            gmi::gemtext::GemtextNode::Preformatted(x, a) => GemtextLine::Preformatted(x, a),
            gmi::gemtext::GemtextNode::EmptyLine => GemtextLine::EmptyLine,
        })
        .collect()
}

} // verus!
