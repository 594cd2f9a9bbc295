use tg2h::gemtext::{source_parses_safely, GemtextLine};
use tg2h::render::{extract_title, render_document, render_line};

#[test]
fn example_document() {
    let src = "# Hello\n\nSome <b>text</b>\n=> /page Link text\n";
    let doc = render_document(src, "");
    assert!(doc.contains("<title>Hello</title>"));
    assert!(doc.contains("<h1>Hello</h1>"));
    assert!(doc.contains("<p>Some &lt;b&gt;text&lt;/b&gt;</p>"));
    assert!(doc.contains("<a href=\"/page\">Link text</a><br>"));
    assert!(!doc.contains("stylesheet"));
}

#[test]
fn render_twice_identical() {
    let src = "# T\ntext with <markup> & stuff\n=> gemini://x caption\n";
    let a = render_document(src, "style.css");
    let b = render_document(src, "style.css");
    assert_eq!(a.as_bytes(), b.as_bytes());
}

#[test]
fn document_shape() {
    let doc = render_document("hi\n", "");
    assert!(doc.starts_with("\n<!DOCTYPE HTML>\n\n<HTML>\n    <head>"));
    assert!(doc.ends_with("</div></div></div>\n    </body>\n</HTML>"));
    assert!(doc.contains("<meta charset=\"UTF-8\">"));
    assert!(doc.contains("<div id='outer'><div id='middle'><div id='inner'>"));
    assert!(doc.contains("<p>hi</p>\n"));
}

#[test]
fn stylesheet_link_when_configured() {
    let doc = render_document("hi\n", "st.css");
    assert!(doc.contains("<link rel=\"stylesheet\" href=\"st.css\">"));
}

#[test]
fn title_is_unescaped() {
    let doc = render_document("# <Hi> & more\nbody\n", "");
    assert!(doc.contains("<title><Hi> & more</title>"));
}

#[test]
fn no_title_without_marker() {
    let doc = render_document("Hello\n# not first\n", "");
    assert!(!doc.contains("<title>"));
}

#[test]
fn title_needs_text_after_marker() {
    assert_eq!(extract_title("# \nrest"), None);
    assert_eq!(extract_title("#x\nrest"), None);
    assert_eq!(extract_title("# x\nrest"), Some("x".to_string()));
}

#[test]
fn title_strips_carriage_return() {
    assert_eq!(extract_title("# Hi\r\nrest"), Some("Hi".to_string()));
    assert_eq!(extract_title("# Hi"), Some("Hi".to_string()));
}

#[test]
fn line_mappings() {
    assert_eq!(render_line(&GemtextLine::Text("a&b".to_string())), "<p>a&amp;b</p>");
    assert_eq!(
        render_line(&GemtextLine::Link("/x".to_string(), Some("cap".to_string()))),
        "<a href=\"/x\">cap</a><br>"
    );
    assert_eq!(
        render_line(&GemtextLine::Link("/x".to_string(), None)),
        "<a href=\"/x\">/x</a><br>"
    );
    assert_eq!(render_line(&GemtextLine::Heading("h".to_string())), "<h1>h</h1>");
    assert_eq!(render_line(&GemtextLine::SubHeading("h".to_string())), "<h2>h</h2>");
    assert_eq!(render_line(&GemtextLine::SubSubHeading("h".to_string())), "<h3>h</h3>");
    assert_eq!(render_line(&GemtextLine::ListItem("i".to_string())), "<li>i</li>");
    assert_eq!(render_line(&GemtextLine::Blockquote("q".to_string())), "<pre>q</pre>");
    assert_eq!(
        render_line(&GemtextLine::Preformatted("code".to_string(), Some("alt".to_string()))),
        "<pre>code</pre>"
    );
    assert_eq!(render_line(&GemtextLine::EmptyLine), "<br>");
}

#[test]
fn escaping_is_applied() {
    assert_eq!(
        render_line(&GemtextLine::Text("<>&".to_string())),
        "<p>&lt;&gt;&amp;</p>"
    );
    assert_eq!(
        render_line(&GemtextLine::Link("/p?a=<1>".to_string(), Some("a & b".to_string()))),
        "<a href=\"/p?a=&lt;1&gt;\">a &amp; b</a><br>"
    );
}

#[test]
fn list_quote_and_preformatted() {
    let doc = render_document("* item\n> quote\n```\ncode x\n```\n## Sub\n### SubSub\n", "");
    assert!(doc.contains("<li>item</li>\n"));
    assert!(doc.contains("<pre>quote</pre>\n"));
    assert!(doc.contains("<pre>code x\n</pre>\n"));
    assert!(doc.contains("<h2>Sub</h2>\n"));
    assert!(doc.contains("<h3>SubSub</h3>\n"));
}

#[test]
fn whitespace_line_is_empty() {
    let doc = render_document("a\n   \nb\n", "");
    assert!(doc.contains("<p>a</p>\n<br>\n<p>b</p>\n"));
}

#[test]
fn empty_source_document() {
    let doc = render_document("", "");
    assert!(doc.starts_with("\n<!DOCTYPE HTML>"));
    assert!(!doc.contains("<title>"));
    assert!(!doc.contains("<p>"));
}

#[test]
fn quote_characters_are_escaped() {
    // Node text escapes both quote characters, so upstream text can close
    // neither a tag nor the href attribute it stands in.
    assert_eq!(
        render_line(&GemtextLine::Text("a\"b'c".to_string())),
        "<p>a&quot;b&#x27;c</p>"
    );
    assert_eq!(
        render_line(&GemtextLine::Link("/p\"x".to_string(), Some("y' z".to_string()))),
        "<a href=\"/p&quot;x\">y&#x27; z</a><br>"
    );
}

#[test]
fn parse_safety_screen() {
    assert!(source_parses_safely(""));
    assert!(source_parses_safely("# Hello\n\nSome text\n=> /page Link\n"));
    assert!(source_parses_safely("= \n"));
    assert!(source_parses_safely("=x\n"));
    assert!(!source_parses_safely("=\n"));
    assert!(!source_parses_safely("*\n"));
    assert!(!source_parses_safely(">\n"));
    assert!(!source_parses_safely("text\n=\nmore\n"));
    assert!(!source_parses_safely("="));
    assert!(!source_parses_safely("=\r\n"));
    assert!(source_parses_safely("=\r"));
}

#[test]
fn parse_safety_tracks_preformatted_blocks() {
    // Inside a preformatted block every line is passed through verbatim,
    // so bare marker lines there are fine.
    assert!(source_parses_safely("```\n=\n```\n"));
    assert!(source_parses_safely("```rust\n>\n```\n"));
    assert!(source_parses_safely("```\n=\n*\n>\n"));
    assert!(!source_parses_safely("```\n=\n```\n=\n"));
    assert!(!source_parses_safely("``\n=\n"));
}

#[test]
fn preformatted_marker_lines_render() {
    let doc = render_document("```\n=\n*\n```\n", "");
    assert!(doc.contains("<pre>=\n*\n</pre>"));
}
