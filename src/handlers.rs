use vstd::prelude::*;

use crate::form::{decode_form, form_outcome, FormError, RequetParams};
use crate::response::{bare, html_ok, Response, ResponseModel, STATUS_BAD_REQUEST};

verus! {

/// The page served at `/`.
pub const INDEX_HTML: &'static str = "<!DOCTYPE html>
<html lang=\"ja\">
<head>
<meta charset=\"utf-8\">
<title>文字の登録</title>
</head>
<body>
<form action=\"/register\" method=\"post\">
<input type=\"text\" name=\"some_text\">
<button type=\"submit\">送信</button>
</form>
</body>
</html>
";

/// What comes before the echoed text.
pub const REGISTER_PREFIX: &'static str = "あなたが入力した文字は ";

/// What comes after the echoed text.
pub const REGISTER_SUFFIX: &'static str = " です。";

/// The echoed fragment for `text`: the text stands verbatim, unescaped,
/// between the fixed prefix and suffix.
pub open spec fn register_message_of(text: Seq<char>) -> Seq<char> {
    REGISTER_PREFIX@ + text + REGISTER_SUFFIX@
}

/// The response to a submitted `text`.
pub open spec fn register_response(text: Seq<char>) -> ResponseModel {
    html_ok(register_message_of(text))
}

/// The fixed page.
pub fn index() -> (r: Response)
    ensures
        r@ == html_ok(INDEX_HTML@),
{
    Response::html_ok(String::from_str(INDEX_HTML))
}

pub fn register_message(text: &str) -> (r: String)
    ensures
        r@ == register_message_of(text@),
{
    let mut r = String::from_str(REGISTER_PREFIX);
    r.append(text);
    r.append(REGISTER_SUFFIX);
    r
}

/// The response to a decoding outcome: the echo for a decoded text, and
/// status 400 with no content type and an empty body for a rejected form.
pub open spec fn outcome_response(o: Result<Seq<char>, FormError>) -> ResponseModel {
    match o {
        Ok(text) => register_response(text),
        Err(_) => bare(STATUS_BAD_REQUEST),
    }
}

/// The echoed fragment, as an HTML response.
pub fn text_register(params: &RequetParams) -> (r: Response)
    ensures
        r@ == register_response(params.some_text@),
{
    Response::html_ok(register_message(params.some_text.as_str()))
}

/// Decodes a submission with content type header value `ct` and echoes it.
pub fn register(ct: &str, body: &[u8]) -> (r: Response)
    ensures
        r@ == outcome_response(form_outcome(ct@, body@)),
{
    match decode_form(ct, body) {
        Ok(params) => text_register(&params),
        Err(_) => Response::bare(STATUS_BAD_REQUEST),
    }
}

} // verus!
