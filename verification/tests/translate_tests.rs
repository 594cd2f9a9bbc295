use tg2h::translate::{
    dec_repr, prepare_request, request_failed_reply, status_repr_string, translate_response,
    try_translate_response, GemStatus, HttpReply, ReplyBody,
};

fn body_string(r: HttpReply) -> String {
    match r.body {
        ReplyBody::Text(s) => s,
        ReplyBody::Bytes(_) => panic!("expected a text body"),
    }
}

#[test]
fn not_found_gone() {
    let r = translate_response(
        GemStatus::PermanentFailure(1),
        "gone".to_string(),
        Vec::new(),
        "",
    );
    assert_eq!(r.status, 404);
    assert_eq!(r.content_type, "text/html; charset=utf-8");
    assert_eq!(body_string(r), "not found: gone");
}

#[test]
fn not_found_escapes_metadata() {
    let r = translate_response(
        GemStatus::PermanentFailure(1),
        "<x>".to_string(),
        Vec::new(),
        "",
    );
    assert_eq!(r.status, 404);
    assert_eq!(body_string(r), "not found: &lt;x&gt;");
}

#[test]
fn input_is_unsupported() {
    let r = translate_response(GemStatus::Input(0), "prompt".to_string(), Vec::new(), "");
    assert_eq!(r.status, 500);
    assert_eq!(r.content_type, "text/html; charset=utf-8");
    assert_eq!(body_string(r), "tg2h: input not supported: prompt");
}

#[test]
fn redirect_is_unsupported() {
    let r = translate_response(
        GemStatus::Redirect(1),
        "gemini://elsewhere".to_string(),
        Vec::new(),
        "",
    );
    assert_eq!(r.status, 500);
    assert_eq!(body_string(r), "tg2h: redirect not supported: gemini://elsewhere");
}

#[test]
fn error_bodies_are_escaped() {
    let r = translate_response(GemStatus::Input(0), "<script>".to_string(), Vec::new(), "");
    assert_eq!(body_string(r), "tg2h: input not supported: &lt;script&gt;");
}

#[test]
fn temporary_failure_names_status() {
    let r = translate_response(
        GemStatus::TemporaryFailure(4),
        "slow".to_string(),
        Vec::new(),
        "",
    );
    assert_eq!(r.status, 500);
    assert_eq!(body_string(r), "tg2h: error: TemporaryFailure(4): slow");
}

#[test]
fn permanent_failure_other_subcode() {
    let r = translate_response(
        GemStatus::PermanentFailure(2),
        "gone".to_string(),
        Vec::new(),
        "",
    );
    assert_eq!(r.status, 500);
    assert_eq!(body_string(r), "tg2h: error: PermanentFailure(2): gone");
}

#[test]
fn unknown_status_kept_whole() {
    let r = translate_response(GemStatus::Unknown(84), "m".to_string(), Vec::new(), "");
    assert_eq!(r.status, 500);
    assert_eq!(body_string(r), "tg2h: error: Unknown(84): m");
}

#[test]
fn certificate_demand_is_error() {
    let r = translate_response(
        GemStatus::ClientCertRequired(1),
        "need cert".to_string(),
        Vec::new(),
        "",
    );
    assert_eq!(r.status, 500);
    assert_eq!(body_string(r), "tg2h: error: ClientCertRequired(1): need cert");
}

#[test]
fn success_gemtext_renders() {
    let r = translate_response(
        GemStatus::Success(0),
        "text/gemini".to_string(),
        b"# T\nhello\n".to_vec(),
        "",
    );
    assert_eq!(r.status, 200);
    assert_eq!(r.content_type, "text/html; charset=utf-8");
    let b = body_string(r);
    assert!(b.contains("<title>T</title>"));
    assert!(b.contains("<h1>T</h1>"));
    assert!(b.contains("<p>hello</p>"));
    assert!(b.starts_with("\n<!DOCTYPE HTML>"));
}

#[test]
fn success_other_mime_passes_bytes_through() {
    let data = vec![1u8, 2, 255, 0, 7];
    let r = translate_response(
        GemStatus::Success(0),
        "image/png".to_string(),
        data.clone(),
        "",
    );
    assert_eq!(r.status, 200);
    assert_eq!(r.content_type, "image/png");
    match r.body {
        ReplyBody::Bytes(b) => assert_eq!(b, data),
        ReplyBody::Text(_) => panic!("expected a byte body"),
    }
}

#[test]
fn invalid_utf8_gemtext() {
    let r = translate_response(
        GemStatus::Success(0),
        "text/gemini".to_string(),
        vec![0xff, 0xfe],
        "",
    );
    assert_eq!(r.status, 500);
    assert_eq!(
        body_string(r),
        "tg2h: invalid UTF-8 character in text/gemini mime type"
    );
}

#[test]
fn try_translate_screens_unclassifiable_gemtext() {
    let r = try_translate_response(
        GemStatus::Success(0),
        "text/gemini".to_string(),
        b"=\n".to_vec(),
        "",
    );
    assert!(r.is_none());
    let ok = try_translate_response(
        GemStatus::Success(0),
        "text/gemini".to_string(),
        b"=> /x hi\n".to_vec(),
        "",
    );
    assert_eq!(ok.unwrap().status, 200);
    let pre = try_translate_response(
        GemStatus::Success(0),
        "text/gemini".to_string(),
        b"```\n>\n```\n".to_vec(),
        "",
    );
    assert_eq!(pre.unwrap().status, 200);
}

#[test]
fn try_translate_passes_other_replies() {
    let r = try_translate_response(GemStatus::Input(0), "p".to_string(), Vec::new(), "");
    assert_eq!(r.unwrap().status, 500);
    let r = try_translate_response(
        GemStatus::Success(0),
        "text/plain".to_string(),
        b"=\n".to_vec(),
        "",
    );
    assert_eq!(r.unwrap().status, 200);
}

#[test]
fn gemtext_mime_match_is_exact() {
    let r = translate_response(
        GemStatus::Success(0),
        "TEXT/GEMINI".to_string(),
        b"hi\n".to_vec(),
        "",
    );
    assert_eq!(r.content_type, "TEXT/GEMINI");
    match r.body {
        ReplyBody::Bytes(b) => assert_eq!(b, b"hi\n".to_vec()),
        ReplyBody::Text(_) => panic!("expected a byte body"),
    }
}

#[test]
fn rendered_reply_carries_stylesheet() {
    let r = translate_response(
        GemStatus::Success(0),
        "text/gemini".to_string(),
        b"hi\n".to_vec(),
        "st.css",
    );
    assert!(body_string(r).contains("<link rel=\"stylesheet\" href=\"st.css\">"));
}

#[test]
fn prepare_request_concatenates() {
    let r = prepare_request("gemini://example.com", "/page/sub?q=1");
    assert_eq!(r.ok().unwrap(), "gemini://example.com/page/sub?q=1");
}

#[test]
fn prepare_request_rejects_bad_url() {
    let r = prepare_request("", "");
    match r {
        Ok(_) => panic!("an empty URL must be rejected"),
        Err(e) => {
            assert_eq!(e.status, 500);
            assert_eq!(e.content_type, "text/html; charset=utf-8");
            assert_eq!(body_string(e), "tg2h: bad url: ");
        },
    }
}

#[test]
fn prepare_request_escapes_bad_url() {
    let r = prepare_request("   ", "");
    match r {
        Ok(_) => panic!("a blank URL must be rejected"),
        Err(e) => assert_eq!(body_string(e), "tg2h: bad url:    "),
    }
}

#[test]
fn request_failure_reply() {
    let r = request_failed_reply();
    assert_eq!(r.status, 500);
    assert_eq!(r.content_type, "text/html; charset=utf-8");
    assert_eq!(body_string(r), "tg2h: could not make request to server");
}

#[test]
fn decimal_representation() {
    assert_eq!(dec_repr(0), "0");
    assert_eq!(dec_repr(9), "9");
    assert_eq!(dec_repr(10), "10");
    assert_eq!(dec_repr(84), "84");
    assert_eq!(dec_repr(255), "255");
}

#[test]
fn status_printed_form() {
    assert_eq!(status_repr_string(&GemStatus::Unknown(84)), "Unknown(84)");
    assert_eq!(
        status_repr_string(&GemStatus::TemporaryFailure(4)),
        "TemporaryFailure(4)"
    );
    assert_eq!(status_repr_string(&GemStatus::Input(0)), "Input(0)");
}
