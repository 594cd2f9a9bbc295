//! Translating one Gemini exchange into an HTTP reply.
//!
//! The upstream URL is the configured base followed by the inbound path,
//! verbatim. The Gemini status taxonomy maps onto HTTP: input-required and
//! redirect responses are unsupported, a permanent failure with the
//! not-found subcode becomes 404, any other failure becomes 500, and a
//! success hands its body through — rendered as HTML when it is gemtext,
//! untouched otherwise. Every upstream-controlled string that lands in an
//! HTML error body is escaped first.

use vstd::prelude::*;
use vstd::utf8::{decode_utf8, valid_utf8};

use crate::escape::{escape_seq, escape_text};
use crate::gemtext::{parse_safe, source_parses_safely};
use crate::render::{render_document, render_document_spec};

verus! {

/// A Gemini response status: the class given by the tens digit of the
/// status code, carrying the subcode (its ones digit). A code outside the
/// six classes is kept whole in `Unknown`.
#[derive(Clone, Copy, PartialEq, Eq, Structural, Debug)]
pub enum GemStatus {
    /// 1x: user input required.
    Input(u8),
    /// 2x: success; the metadata is the MIME type of the body.
    Success(u8),
    /// 3x: redirect; the metadata is the target URL.
    Redirect(u8),
    /// 4x: temporary failure.
    TemporaryFailure(u8),
    /// 5x: permanent failure; subcode 1 is "not found".
    PermanentFailure(u8),
    /// 6x: client certificate required.
    ClientCertRequired(u8),
    /// A malformed or unrecognised status code, kept in full.
    Unknown(u8),
}

/// The body of an HTTP reply: rendered or error text, or the upstream
/// bytes passed through untouched.
pub enum ReplyBody {
    Text(String),
    Bytes(Vec<u8>),
}

/// An outbound HTTP reply: status code, content type, body.
pub struct HttpReply {
    pub status: u16,
    pub content_type: String,
    pub body: ReplyBody,
}

/// The content type of every HTML reply the gateway builds itself.
pub open spec fn html_content_type() -> Seq<char> {
    "text/html; charset=utf-8"@
}

/// The decimal digit `n` as a character.
pub open spec fn digit_char(n: nat) -> char {
    if n == 0 {
        '0'
    } else if n == 1 {
        '1'
    } else if n == 2 {
        '2'
    } else if n == 3 {
        '3'
    } else if n == 4 {
        '4'
    } else if n == 5 {
        '5'
    } else if n == 6 {
        '6'
    } else if n == 7 {
        '7'
    } else if n == 8 {
        '8'
    } else {
        '9'
    }
}

/// The decimal representation of `n`, most significant digit first.
pub open spec fn dec_str(n: nat) -> Seq<char>
    decreases n,
{
    if n < 10 {
        seq![digit_char(n)]
    } else {
        dec_str(n / 10) + seq![digit_char(n % 10)]
    }
}

/// The printed form of a status, `Class(subcode)`, as it appears in error
/// bodies.
pub open spec fn status_repr(s: GemStatus) -> Seq<char> {
    match s {
        GemStatus::Input(n) => "Input("@ + dec_str(n as nat) + ")"@,
        GemStatus::Success(n) => "Success("@ + dec_str(n as nat) + ")"@,
        GemStatus::Redirect(n) => "Redirect("@ + dec_str(n as nat) + ")"@,
        GemStatus::TemporaryFailure(n) => "TemporaryFailure("@ + dec_str(n as nat) + ")"@,
        GemStatus::PermanentFailure(n) => "PermanentFailure("@ + dec_str(n as nat) + ")"@,
        GemStatus::ClientCertRequired(n) => "ClientCertRequired("@ + dec_str(n as nat) + ")"@,
        GemStatus::Unknown(n) => "Unknown("@ + dec_str(n as nat) + ")"@,
    }
}

fn digit_str(d: u8) -> (r: &'static str)
    requires
        d < 10,
    ensures
        r@ == seq![digit_char(d as nat)],
{
    match d {
        0 => {
            proof { reveal_strlit("0"); assert("0"@ =~= seq![digit_char(0)]); }
            "0"
        },
        1 => {
            proof { reveal_strlit("1"); assert("1"@ =~= seq![digit_char(1)]); }
            "1"
        },
        2 => {
            proof { reveal_strlit("2"); assert("2"@ =~= seq![digit_char(2)]); }
            "2"
        },
        3 => {
            proof { reveal_strlit("3"); assert("3"@ =~= seq![digit_char(3)]); }
            "3"
        },
        4 => {
            proof { reveal_strlit("4"); assert("4"@ =~= seq![digit_char(4)]); }
            "4"
        },
        5 => {
            proof { reveal_strlit("5"); assert("5"@ =~= seq![digit_char(5)]); }
            "5"
        },
        6 => {
            proof { reveal_strlit("6"); assert("6"@ =~= seq![digit_char(6)]); }
            "6"
        },
        7 => {
            proof { reveal_strlit("7"); assert("7"@ =~= seq![digit_char(7)]); }
            "7"
        },
        8 => {
            proof { reveal_strlit("8"); assert("8"@ =~= seq![digit_char(8)]); }
            "8"
        },
        _ => {
            proof { reveal_strlit("9"); assert("9"@ =~= seq![digit_char(9)]); }
            "9"
        },
    }
}

/// Writes `n` in decimal.
pub fn dec_repr(n: u8) -> (r: String)
    ensures
        r@ == dec_str(n as nat),
    decreases n,
{
    if n < 10 {
        String::from_str(digit_str(n))
    } else {
        let mut s = dec_repr(n / 10);
        s.append(digit_str(n % 10));
        s
    }
}

/// Writes a status as `Class(subcode)`.
pub fn status_repr_string(s: &GemStatus) -> (r: String)
    ensures
        r@ == status_repr(*s),
{
    let (name, sub): (&'static str, u8) = match s {
        GemStatus::Input(n) => ("Input(", *n),
        GemStatus::Success(n) => ("Success(", *n),
        GemStatus::Redirect(n) => ("Redirect(", *n),
        GemStatus::TemporaryFailure(n) => ("TemporaryFailure(", *n),
        GemStatus::PermanentFailure(n) => ("PermanentFailure(", *n),
        GemStatus::ClientCertRequired(n) => ("ClientCertRequired(", *n),
        GemStatus::Unknown(n) => ("Unknown(", *n),
    };
    let mut out = String::from_str(name);
    out.append(dec_repr(sub).as_str());
    out.append(")");
    out
}

/// A gateway error reply: HTTP 500 with an HTML body holding the message,
/// escaped, after the gateway's prefix.
pub open spec fn is_gateway_error(r: HttpReply, msg: Seq<char>) -> bool {
    &&& r.status == 500
    &&& r.content_type@ == html_content_type()
    &&& (r.body matches ReplyBody::Text(s) && s@ == "tg2h: "@ + escape_seq(msg))
}

fn error_reply(msg: String) -> (r: HttpReply)
    ensures
        is_gateway_error(r, msg@),
{
    let mut b = String::from_str("tg2h: ");
    b.append(escape_text(msg.as_str()).as_str());
    HttpReply {
        status: 500,
        content_type: String::from_str("text/html; charset=utf-8"),
        body: ReplyBody::Text(b),
    }
}

/// Whether a string parses as a URL; what the Gemini client accepts as a
/// request target is a function of the string alone.
pub uninterp spec fn url_ok(s: Seq<char>) -> bool;

/// Relies on gmi::url::Url::try_from(&str): parsing is a pure function of
/// the string, with no other input.
#[verifier::external_body]
fn url_parses(s: &str) -> (r: bool)
    ensures
        r == url_ok(s@),
{
    gmi::url::Url::try_from(s).is_ok()
}

/// The upstream URL for an inbound path: the base followed by the path,
/// verbatim.
pub fn upstream_url(base: &str, path: &str) -> (r: String)
    ensures
        r@ == base@ + path@,
{
    let mut u = String::from_str(base);
    u.append(path);
    u
}

/// Builds the upstream URL for an inbound path and checks that it parses.
/// A string that does not parse as a URL is answered with HTTP 500 and an
/// escaped error body naming the bad URL.
pub fn prepare_request(base: &str, path: &str) -> (r: Result<String, HttpReply>)
    ensures
        url_ok(base@ + path@) ==> (r matches Ok(u) && u@ == base@ + path@),
        !url_ok(base@ + path@) ==> (r matches Err(e) && is_gateway_error(
            e,
            "bad url: "@ + base@ + path@,
        )),
{
    let url = upstream_url(base, path);
    if url_parses(url.as_str()) {
        Ok(url)
    } else {
        let mut msg = String::from_str("bad url: ");
        msg.append(url.as_str());
        proof {
            assert(msg@ =~= "bad url: "@ + base@ + path@);
        }
        Err(error_reply(msg))
    }
}

/// The reply for a Gemini request that could not be completed at all.
pub fn request_failed_reply() -> (r: HttpReply)
    ensures
        is_gateway_error(r, "could not make request to server"@),
{
    error_reply(String::from_str("could not make request to server"))
}

/// Relies on String::from_utf8: it succeeds exactly on valid UTF-8 and
/// decodes the bytes into their characters.
#[verifier::external_body]
fn decode_utf8_bytes(v: &Vec<u8>) -> (r: Option<String>)
    ensures
        r is Some <==> valid_utf8(v@),
        r matches Some(s) ==> s@ == decode_utf8(v@),
{
    String::from_utf8(v.clone()).ok()
}

/// A failure status outside the cases with a dedicated reply: temporary
/// failures, permanent failures other than not-found, certificate demands,
/// and malformed statuses.
pub open spec fn other_failure(s: GemStatus) -> bool {
    match s {
        GemStatus::TemporaryFailure(_) => true,
        GemStatus::PermanentFailure(n) => n != 1,
        GemStatus::ClientCertRequired(_) => true,
        GemStatus::Unknown(_) => true,
        _ => false,
    }
}

fn failure_reply(status: &GemStatus, meta: &str) -> (r: HttpReply)
    ensures
        is_gateway_error(r, "error: "@ + status_repr(*status) + ": "@ + meta@),
{
    let mut msg = String::from_str("error: ");
    msg.append(status_repr_string(status).as_str());
    msg.append(": ");
    msg.append(meta);
    error_reply(msg)
}

fn unsupported_reply(what: &str, meta: &str) -> (r: HttpReply)
    ensures
        is_gateway_error(r, what@ + meta@),
{
    let mut msg = String::from_str(what);
    msg.append(meta);
    error_reply(msg)
}

fn success_reply(meta: String, data: Vec<u8>, style: &str) -> (r: HttpReply)
    requires
        meta@ == "text/gemini"@ && valid_utf8(data@) ==> parse_safe(decode_utf8(data@)),
    ensures
        meta@ == "text/gemini"@ && valid_utf8(data@) ==> (r.status == 200 && r.content_type@
            == html_content_type() && (r.body matches ReplyBody::Text(h) && h@
            == render_document_spec(decode_utf8(data@), style@))),
        meta@ == "text/gemini"@ && !valid_utf8(data@) ==> is_gateway_error(
            r,
            "invalid UTF-8 character in text/gemini mime type"@,
        ),
        meta@ != "text/gemini"@ ==> (r.status == 200 && r.content_type@ == meta@ && (
        r.body matches ReplyBody::Bytes(b) && b@ == data@)),
{
    let gemtext_mime = String::from_str("text/gemini");
    if meta == gemtext_mime {
        match decode_utf8_bytes(&data) {
            Some(text) => {
                let html = render_document(text.as_str(), style);
                HttpReply {
                    status: 200,
                    content_type: String::from_str("text/html; charset=utf-8"),
                    body: ReplyBody::Text(html),
                }
            },
            None => error_reply(
                String::from_str("invalid UTF-8 character in text/gemini mime type"),
            ),
        }
    } else {
        HttpReply { status: 200, content_type: meta, body: ReplyBody::Bytes(data) }
    }
}

/// What the outbound HTTP reply `r` must be for a Gemini response with
/// this status, metadata and body, under this stylesheet configuration.
///
/// Input-required and redirect statuses are unsupported and answered with
/// 500; a permanent failure with the not-found subcode becomes 404; every
/// other failure becomes 500 with the printed status in the body; a
/// success returns the body, rendered as HTML when the metadata names
/// gemtext, passed through byte for byte under its own content type
/// otherwise.
pub open spec fn translated_reply(
    status: GemStatus,
    meta: Seq<char>,
    data: Seq<u8>,
    style: Seq<char>,
    r: HttpReply,
) -> bool {
    &&& (status matches GemStatus::Input(_) ==> is_gateway_error(
        r,
        "input not supported: "@ + meta,
    ))
    &&& (status matches GemStatus::Redirect(_) ==> is_gateway_error(
        r,
        "redirect not supported: "@ + meta,
    ))
    &&& (status == GemStatus::PermanentFailure(1u8) ==> (r.status == 404 && r.content_type@
        == html_content_type() && (r.body matches ReplyBody::Text(s) && s@ == "not found: "@
        + escape_seq(meta))))
    &&& (other_failure(status) ==> is_gateway_error(
        r,
        "error: "@ + status_repr(status) + ": "@ + meta,
    ))
    &&& (status matches GemStatus::Success(_) && meta == "text/gemini"@ && valid_utf8(data) ==> (
    r.status == 200 && r.content_type@ == html_content_type() && (
    r.body matches ReplyBody::Text(h) && h@ == render_document_spec(decode_utf8(data), style))))
    &&& (status matches GemStatus::Success(_) && meta == "text/gemini"@ && !valid_utf8(data)
        ==> is_gateway_error(r, "invalid UTF-8 character in text/gemini mime type"@))
    &&& (status matches GemStatus::Success(_) && meta != "text/gemini"@ ==> (r.status == 200
        && r.content_type@ == meta && (r.body matches ReplyBody::Bytes(b) && b@ == data)))
}

/// A Gemini response whose translation stays inside what the renderer
/// accepts: when it would be rendered as gemtext, its decoded body must be
/// a source the parser can classify (see [`parse_safe`]).
pub open spec fn render_input_safe(status: GemStatus, meta: Seq<char>, data: Seq<u8>) -> bool {
    status matches GemStatus::Success(_) && meta == "text/gemini"@ && valid_utf8(data)
        ==> parse_safe(decode_utf8(data))
}

/// Translates one Gemini response into the outbound HTTP reply; see
/// [`translated_reply`] for the full mapping. A gemtext body must decode to
/// a source the parser can classify; [`try_translate_response`] screens for
/// that and carries no precondition.
pub fn translate_response(status: GemStatus, meta: String, data: Vec<u8>, style: &str) -> (r:
    HttpReply)
    requires
        render_input_safe(status, meta@, data@),
    ensures
        translated_reply(status, meta@, data@, style@, r),
{
    match status {
        GemStatus::Input(_) => unsupported_reply("input not supported: ", meta.as_str()),
        GemStatus::Redirect(_) => unsupported_reply("redirect not supported: ", meta.as_str()),
        GemStatus::Success(_) => success_reply(meta, data, style),
        GemStatus::PermanentFailure(n) => {
            if n == 1 {
                let mut b = String::from_str("not found: ");
                b.append(escape_text(meta.as_str()).as_str());
                HttpReply {
                    status: 404,
                    content_type: String::from_str("text/html; charset=utf-8"),
                    body: ReplyBody::Text(b),
                }
            } else {
                failure_reply(&status, meta.as_str())
            }
        },
        GemStatus::TemporaryFailure(_) => failure_reply(&status, meta.as_str()),
        GemStatus::ClientCertRequired(_) => failure_reply(&status, meta.as_str()),
        GemStatus::Unknown(_) => failure_reply(&status, meta.as_str()),
    }
}

/// Translates one Gemini response into the outbound HTTP reply, first
/// screening a gemtext body against the parser's one gap: a response whose
/// decoded gemtext the parser cannot classify is answered with `None`, and
/// every other response with its translated reply.
pub fn try_translate_response(status: GemStatus, meta: String, data: Vec<u8>, style: &str) -> (r:
    Option<HttpReply>)
    ensures
        render_input_safe(status, meta@, data@) ==> (r matches Some(rep) && translated_reply(
            status,
            meta@,
            data@,
            style@,
            rep,
        )),
        !render_input_safe(status, meta@, data@) ==> r is None,
{
    let gemtext_mime = String::from_str("text/gemini");
    let is_success = match status {
        GemStatus::Success(_) => true,
        _ => false,
    };
    if is_success && meta == gemtext_mime {
        match decode_utf8_bytes(&data) {
            Some(text) => {
                if source_parses_safely(text.as_str()) {
                    Some(translate_response(status, meta, data, style))
                } else {
                    None
                }
            },
            None => Some(translate_response(status, meta, data, style)),
        }
    } else {
        Some(translate_response(status, meta, data, style))
    }
}

} // verus!
