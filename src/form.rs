use vstd::prelude::*;

use crate::percent::{form_body_well_formed, is_well_formed_form_body};
use crate::text::{is_form_content_type, is_form_content_type_spec, same_text};

verus! {

/// The name of the one field that a submission carries.
pub const FIELD_NAME: &'static str = "some_text";

/// A decoded submission.
pub struct RequetParams {
    pub some_text: String,
}

impl RequetParams {
    pub fn new(some_text: String) -> (r: RequetParams)
        ensures
            r.some_text@ == some_text@,
    {
        RequetParams { some_text }
    }
}

/// Why a request body is not a submission.
#[derive(Debug, Clone, Copy, PartialEq, Eq, Structural)]
pub enum FormError {
    /// The body is not announced as form-encoded.
    ContentType,
    /// An escape of the body is not `%` and two hex digits, or the bytes
    /// that the body stands for are not UTF-8.
    Malformed,
    /// No pair of the body is named `some_text`.
    MissingField,
    /// Two or more pairs of the body are named `some_text`.
    DuplicateField,
}

/// The (name, value) pairs that `form_urlencoded::parse` reads from a body.
pub uninterp spec fn form_pairs(body: Seq<u8>) -> Seq<(Seq<char>, Seq<char>)>;

/// The value of owned pairs.
pub open spec fn pairs_view(v: Seq<(String, String)>) -> Seq<(Seq<char>, Seq<char>)> {
    v.map_values(|p: (String, String)| (p.0@, p.1@))
}

/// Relies on `form_urlencoded::parse` (with `into_owned`): it splits an
/// `application/x-www-form-urlencoded` body into its percent-decoded
/// (name, value) pairs, in order, and yields none for an empty body.
#[verifier::external_body]
fn parse_pairs(body: &[u8]) -> (r: Vec<(String, String)>)
    ensures
        pairs_view(r@) == form_pairs(body@),
        body@.len() == 0 ==> r@.len() == 0,
{
    form_urlencoded::parse(body).into_owned().collect()
}

/// The values of the pairs named `name`, in order.
pub open spec fn values_named(pairs: Seq<(Seq<char>, Seq<char>)>, name: Seq<char>) -> Seq<
    Seq<char>,
>
    decreases pairs.len(),
{
    if pairs.len() == 0 {
        Seq::empty()
    } else {
        let rest = values_named(pairs.drop_last(), name);
        if pairs.last().0 == name {
            rest.push(pairs.last().1)
        } else {
            rest
        }
    }
}

/// The submitted text of a body's pairs: the value of the one pair named
/// `some_text`; pairs with other names are ignored.
pub open spec fn params_of_pairs(pairs: Seq<(Seq<char>, Seq<char>)>) -> Result<
    Seq<char>,
    FormError,
> {
    let found = values_named(pairs, FIELD_NAME@);
    if found.len() == 0 {
        Err(FormError::MissingField)
    } else if found.len() > 1 {
        Err(FormError::DuplicateField)
    } else {
        Ok(found[0])
    }
}

/// The submitted text of a request with content type `ct` and body `body`.
/// A `charset` parameter of the content type is not looked at: a body is
/// always read as UTF-8.
pub open spec fn form_outcome(ct: Seq<char>, body: Seq<u8>) -> Result<Seq<char>, FormError> {
    if !is_form_content_type_spec(ct) {
        Err(FormError::ContentType)
    } else if !form_body_well_formed(body) {
        Err(FormError::Malformed)
    } else {
        params_of_pairs(form_pairs(body))
    }
}

/// `r` is the decoded counterpart of the outcome `o`.
pub open spec fn decoded_as(r: Result<RequetParams, FormError>, o: Result<Seq<char>, FormError>) -> bool {
    match o {
        Ok(t) => r matches Ok(p) && p.some_text@ == t,
        Err(e) => r matches Err(f) && f == e,
    }
}

/// Picks the submission out of a body's pairs.
pub fn params_from_pairs(pairs: &Vec<(String, String)>) -> (r: Result<RequetParams, FormError>)
    ensures
        decoded_as(r, params_of_pairs(pairs_view(pairs@))),
{
    let ghost pv = pairs_view(pairs@);
    let mut count: usize = 0;
    let mut first: usize = 0;
    let mut i: usize = 0;
    while i < pairs.len()
        invariant
            pv == pairs_view(pairs@),
            i <= pairs@.len(),
            count <= i,
            count == values_named(pv.take(i as int), FIELD_NAME@).len(),
            count > 0 ==> first < i && values_named(pv.take(i as int), FIELD_NAME@)[0]
                == pairs@[first as int].1@,
        decreases pairs@.len() - i,
    {
        assert(pv.take(i + 1).drop_last() =~= pv.take(i as int));
        if same_text(pairs[i].0.as_str(), FIELD_NAME) {
            if count == 0 {
                first = i;
            }
            count = count + 1;
        }
        i = i + 1;
    }
    assert(pv.take(pairs@.len() as int) =~= pv);
    if count == 0 {
        Err(FormError::MissingField)
    } else if count > 1 {
        Err(FormError::DuplicateField)
    } else {
        Ok(RequetParams { some_text: pairs[first].1.clone() })
    }
}

/// Decodes a request body with content type header value `ct` into a
/// submission.
pub fn decode_form(ct: &str, body: &[u8]) -> (r: Result<RequetParams, FormError>)
    ensures
        decoded_as(r, form_outcome(ct@, body@)),
{
    if !is_form_content_type(ct) {
        return Err(FormError::ContentType);
    }
    if !is_well_formed_form_body(body) {
        return Err(FormError::Malformed);
    }
    let pairs = parse_pairs(body);
    params_from_pairs(&pairs)
}

} // verus!
