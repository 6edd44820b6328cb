use vstd::prelude::*;

use crate::form::{form_outcome, form_pairs, values_named, FIELD_NAME};
use crate::percent::form_body_well_formed;
use crate::handlers::{
    index, outcome_response, register, register_message_of, INDEX_HTML, REGISTER_PREFIX,
};
use crate::response::{
    bare, html_ok, Response, ResponseModel, STATUS_BAD_REQUEST, STATUS_METHOD_NOT_ALLOWED,
    STATUS_NOT_FOUND, STATUS_OK,
};
use crate::text::{is_form_content_type_spec, same_text};

verus! {

/// The path of the page.
pub const INDEX_PATH: &'static str = "/";

/// The path that takes submissions.
pub const REGISTER_PATH: &'static str = "/register";

/// The request methods that the routes tell apart.
#[derive(Debug, Clone, Copy, PartialEq, Eq, Structural)]
pub enum Method {
    Get,
    Post,
    Other,
}

/// The response to a request: `GET /` gives the page, `POST /register`
/// echoes the submission, another method on either path is not allowed, and
/// any other path is not found.
pub open spec fn route_response(
    method: Method,
    path: Seq<char>,
    ct: Seq<char>,
    body: Seq<u8>,
) -> ResponseModel {
    if path == INDEX_PATH@ {
        if method == Method::Get {
            html_ok(INDEX_HTML@)
        } else {
            bare(STATUS_METHOD_NOT_ALLOWED)
        }
    } else if path == REGISTER_PATH@ {
        if method == Method::Post {
            outcome_response(form_outcome(ct, body))
        } else {
            bare(STATUS_METHOD_NOT_ALLOWED)
        }
    } else {
        bare(STATUS_NOT_FOUND)
    }
}

/// Dispatches a request, given its method, path, content type header value
/// (empty where there is none) and body.
pub fn route(method: Method, path: &str, ct: &str, body: &[u8]) -> (r: Response)
    ensures
        r@ == route_response(method, path@, ct@, body@),
{
    if same_text(path, INDEX_PATH) {
        if method == Method::Get {
            index()
        } else {
            Response::bare(STATUS_METHOD_NOT_ALLOWED)
        }
    } else if same_text(path, REGISTER_PATH) {
        if method == Method::Post {
            register(ct, body)
        } else {
            Response::bare(STATUS_METHOD_NOT_ALLOWED)
        }
    } else {
        Response::bare(STATUS_NOT_FOUND)
    }
}

/// The two paths are different texts.
proof fn lemma_paths_differ()
    ensures
        INDEX_PATH@ != REGISTER_PATH@,
{
    reveal_strlit("/");
    reveal_strlit("/register");
    assert(INDEX_PATH@.len() != REGISTER_PATH@.len());
}

/// Every `GET /` is answered with status 200, the HTML content type and the
/// fixed page, whatever else the request holds.
pub proof fn lemma_index_is_fixed(ct: Seq<char>, body: Seq<u8>)
    ensures
        route_response(Method::Get, INDEX_PATH@, ct, body) == html_ok(INDEX_HTML@),
        html_ok(INDEX_HTML@).status == STATUS_OK,
{
}

/// A well-formed form whose one `some_text` field holds `s` is answered with
/// status 200, the HTML content type and the fixed template with `s` in it
/// verbatim; the answer depends on `s` alone.
pub proof fn lemma_register_echoes(ct: Seq<char>, body: Seq<u8>, s: Seq<char>)
    requires
        is_form_content_type_spec(ct),
        form_body_well_formed(body),
        values_named(form_pairs(body), FIELD_NAME@) == seq![s],
    ensures
        route_response(Method::Post, REGISTER_PATH@, ct, body) == html_ok(
            register_message_of(s),
        ),
        register_message_of(s).subrange(
            REGISTER_PREFIX@.len() as int,
            (REGISTER_PREFIX@.len() + s.len()) as int,
        ) == s,
{
    lemma_paths_differ();
    assert(register_message_of(s).subrange(
        REGISTER_PREFIX@.len() as int,
        (REGISTER_PREFIX@.len() + s.len()) as int,
    ) =~= s);
}

/// A submission without a `some_text` field is answered with status 400.
pub proof fn lemma_missing_field_rejected(ct: Seq<char>, body: Seq<u8>)
    requires
        values_named(form_pairs(body), FIELD_NAME@).len() == 0,
    ensures
        route_response(Method::Post, REGISTER_PATH@, ct, body) == bare(STATUS_BAD_REQUEST),
{
    lemma_paths_differ();
}

/// A submission with a malformed escape, or whose bytes are not UTF-8 once
/// decoded, is answered with status 400.
pub proof fn lemma_malformed_body_rejected(ct: Seq<char>, body: Seq<u8>)
    requires
        !form_body_well_formed(body),
    ensures
        route_response(Method::Post, REGISTER_PATH@, ct, body) == bare(STATUS_BAD_REQUEST),
{
    lemma_paths_differ();
}

/// A submission is answered with status 200 exactly when its body decodes,
/// and with status 400 otherwise: no other status occurs.
pub proof fn lemma_register_status(ct: Seq<char>, body: Seq<u8>)
    ensures
        (route_response(Method::Post, REGISTER_PATH@, ct, body).status == STATUS_OK)
            <==> form_outcome(ct, body) is Ok,
        form_outcome(ct, body) is Err ==> route_response(
            Method::Post,
            REGISTER_PATH@,
            ct,
            body,
        ) == bare(STATUS_BAD_REQUEST),
{
    lemma_paths_differ();
}

} // verus!
