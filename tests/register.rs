use form_echo::form::{decode_form, params_from_pairs, FormError, RequetParams};
use form_echo::percent::{has_well_formed_escapes, is_well_formed_form_body, percent_decode};
use form_echo::handlers::{index, register_message, text_register, INDEX_HTML};
use form_echo::response::Response;
use form_echo::routes::{route, Method};
use form_echo::text::{is_form_content_type, same_text};

const FORM: &str = "application/x-www-form-urlencoded";
const HTML: &str = "text/html; charset=utf-8";

fn form_body(pairs: &[(&str, &str)]) -> Vec<u8> {
    let mut s = form_urlencoded::Serializer::new(String::new());
    for (k, v) in pairs {
        s.append_pair(k, v);
    }
    s.finish().into_bytes()
}

fn post(ct: &str, body: &[u8]) -> Response {
    route(Method::Post, "/register", ct, body)
}

#[test]
fn text_register_unit_test() {
    let params = RequetParams {
        some_text: "日本語".to_string(),
    };
    let resp = text_register(&params);
    assert_eq!(resp.status, 200);
    assert_eq!(resp.content_type, "text/html; charset=utf-8");
    assert_eq!(resp.body, "あなたが入力した文字は 日本語 です。");
}

#[test]
fn text_register_integration_test() {
    let body = form_body(&[("some_text", "日本語だよ")]);
    let resp = route(Method::Post, "/register", FORM, &body);
    assert_eq!(resp.status, 200);
    assert_eq!(resp.content_type, "text/html; charset=utf-8");
    assert_eq!(resp.body, "あなたが入力した文字は 日本語だよ です。");
}

#[test]
fn index_serves_fixed_page() {
    let resp = route(Method::Get, "/", "", b"");
    assert_eq!(resp.status, 200);
    assert_eq!(resp.content_type, HTML);
    assert_eq!(resp.body, INDEX_HTML);
    let again = route(Method::Get, "/", FORM, b"some_text=x");
    assert_eq!(again.body, INDEX_HTML);
    assert_eq!(index().body, INDEX_HTML);
}

#[test]
fn register_japanese_text() {
    let resp = post(FORM, &form_body(&[("some_text", "日本語")]));
    assert_eq!(resp.status, 200);
    assert_eq!(resp.content_type, HTML);
    assert_eq!(resp.body, "あなたが入力した文字は 日本語 です。");
}

#[test]
fn register_empty_text() {
    let resp = post(FORM, b"some_text=");
    assert_eq!(resp.status, 200);
    assert_eq!(resp.content_type, HTML);
    assert_eq!(resp.body, "あなたが入力した文字は  です。");
}

#[test]
fn register_without_body_is_bad_request() {
    assert_eq!(post("", b"").status, 400);
    assert_eq!(post(FORM, b"").status, 400);
}

#[test]
fn register_missing_field_is_bad_request() {
    let resp = post(FORM, &form_body(&[("other", "x")]));
    assert_eq!(resp.status, 400);
    assert_eq!(resp.content_type, "");
    assert_eq!(resp.body, "");
}

#[test]
fn register_duplicate_field_is_bad_request() {
    let resp = post(FORM, b"some_text=a&some_text=b");
    assert_eq!(resp.status, 400);
    assert_eq!(resp.body, "");
}

#[test]
fn register_other_content_type_is_bad_request() {
    let resp = post("application/json", b"some_text=a");
    assert_eq!(resp.status, 400);
    assert_eq!(resp.body, "");
}

#[test]
fn register_long_text_is_echoed() {
    let text = "あ".repeat(20000);
    let resp = post(FORM, &form_body(&[("some_text", &text)]));
    assert_eq!(resp.status, 200);
    assert_eq!(resp.body, format!("あなたが入力した文字は {} です。", text));
    let mut missing = b"other=".to_vec();
    missing.resize(40000, b'a');
    assert_eq!(post(FORM, &missing).status, 400);
}

#[test]
fn register_keeps_markup_verbatim() {
    let text = "<script>alert('x')</script> & \"q\"";
    let resp = post(FORM, &form_body(&[("some_text", text)]));
    assert_eq!(resp.status, 200);
    assert_eq!(resp.body, format!("あなたが入力した文字は {} です。", text));
}

#[test]
fn register_decodes_plus_and_percent() {
    let resp = post(FORM, b"a=1&some_text=a+b%21&c");
    assert_eq!(resp.status, 200);
    assert_eq!(resp.body, "あなたが入力した文字は a b! です。");
}

#[test]
fn register_same_text_same_response() {
    let a = post(FORM, &form_body(&[("some_text", "abc")]));
    let b = post(FORM, &form_body(&[("x", "1"), ("some_text", "abc")]));
    assert_eq!(a.status, b.status);
    assert_eq!(a.content_type, b.content_type);
    assert_eq!(a.body, b.body);
}

#[test]
fn malformed_percent_encoding_is_bad_request() {
    let bodies: [&[u8]; 6] = [
        b"some_text=%zz",
        b"some_text=%G1",
        b"some_text=%E6%97",
        b"some_text=abc%4",
        b"some_text=%",
        b"some_text=\xff",
    ];
    for body in bodies {
        let resp = post(FORM, body);
        assert_eq!(resp.status, 400);
        assert_eq!(resp.body, "");
        assert!(matches!(decode_form(FORM, body), Err(FormError::Malformed)));
    }
    let ok = post(FORM, b"some_text=%e6%97%a5%E6%9C%AC");
    assert_eq!(ok.status, 200);
    assert_eq!(ok.body, "あなたが入力した文字は 日本 です。");
}

#[test]
fn percent_decoding_helpers() {
    assert!(has_well_formed_escapes(b"a%41%6a"));
    assert!(!has_well_formed_escapes(b"a%4"));
    assert!(!has_well_formed_escapes(b"%x1"));
    assert_eq!(percent_decode(b"a%41%6a+%"), b"aAj+%".to_vec());
    assert_eq!(percent_decode(b"%E6%97%A5"), "日".as_bytes().to_vec());
    assert!(is_well_formed_form_body(b"some_text=%E6%97%A5"));
    assert!(!is_well_formed_form_body(b"some_text=%E6%97"));
    assert!(!is_well_formed_form_body(&[0xC0, 0x80]));
    assert!(is_well_formed_form_body(b""));
}

#[test]
fn unknown_path_and_wrong_method() {
    let r = route(Method::Get, "/other", "", b"");
    assert_eq!(r.status, 404);
    assert_eq!(r.body, "");
    assert_eq!(route(Method::Get, "/register", "", b"").status, 405);
    assert_eq!(route(Method::Post, "/", FORM, b"some_text=a").status, 405);
    assert_eq!(route(Method::Other, "/", "", b"").status, 405);
}

#[test]
fn content_type_matching() {
    assert!(is_form_content_type(FORM));
    assert!(is_form_content_type(" Application/X-WWW-Form-Urlencoded ; charset=utf-8"));
    assert!(!is_form_content_type(""));
    assert!(!is_form_content_type("application/x-www-form-urlencodedx"));
    assert!(!is_form_content_type("text/plain; application/x-www-form-urlencoded"));
    assert!(same_text("日本", "日本"));
    assert!(!same_text("日本", "日本語"));
}

#[test]
fn decode_form_outcomes() {
    assert!(matches!(decode_form(FORM, b"some_text=hi"), Ok(p) if p.some_text == "hi"));
    assert!(matches!(decode_form("text/plain", b"some_text=hi"), Err(FormError::ContentType)));
    assert!(matches!(decode_form(FORM, b"x=1"), Err(FormError::MissingField)));
    assert!(matches!(
        decode_form(FORM, b"some_text=1&some_text=2"),
        Err(FormError::DuplicateField)
    ));
    let pairs = vec![("some_text".to_string(), "v".to_string())];
    assert!(matches!(params_from_pairs(&pairs), Ok(p) if p.some_text == "v"));
    assert!(matches!(params_from_pairs(&Vec::new()), Err(FormError::MissingField)));
}

#[test]
fn register_message_template() {
    assert_eq!(register_message("x").as_str(), "あなたが入力した文字は x です。");
    assert_eq!(
        text_register(&RequetParams::new("ä".to_string())).body,
        "あなたが入力した文字は ä です。"
    );
}
