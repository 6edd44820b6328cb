use vstd::prelude::*;

verus! {

/// The media type that marks a form-encoded body.
pub const FORM_MEDIA_TYPE: &'static str = "application/x-www-form-urlencoded";

/// Whether two texts are equal.
pub fn same_text(a: &str, b: &str) -> (r: bool)
    ensures
        r == (a@ == b@),
{
    let n = a.unicode_len();
    if n != b.unicode_len() {
        return false;
    }
    let mut i: usize = 0;
    while i < n
        invariant
            n == a@.len(),
            n == b@.len(),
            i <= n,
            forall|k: int| 0 <= k < i ==> a@[k] == b@[k],
        decreases n - i,
    {
        if a.get_char(i) != b.get_char(i) {
            return false;
        }
        i = i + 1;
    }
    assert(a@ =~= b@);
    true
}

/// A blank in a header value: a space or a tab.
pub open spec fn is_blank(c: char) -> bool {
    c == ' ' || c == '\t'
}

/// The index of the first `;` of `s` at or after `i`, or the length of `s`.
pub open spec fn semicolon_from(s: Seq<char>, i: int) -> int
    decreases s.len() - i,
{
    if i < 0 || i >= s.len() {
        s.len() as int
    } else if s[i] == ';' {
        i
    } else {
        semicolon_from(s, i + 1)
    }
}

/// The first index at or after `i` and before `end` that holds no blank, or `end`.
pub open spec fn skip_blanks(s: Seq<char>, i: int, end: int) -> int
    decreases end - i,
{
    if i < end && is_blank(s[i]) {
        skip_blanks(s, i + 1, end)
    } else {
        i
    }
}

/// The end of `s[start..end]` once trailing blanks are taken off.
pub open spec fn drop_trailing_blanks(s: Seq<char>, start: int, end: int) -> int
    decreases end - start,
{
    if start < end && is_blank(s[end - 1]) {
        drop_trailing_blanks(s, start, end - 1)
    } else {
        end
    }
}

/// The media type of a content type header value: the part before the first
/// `;`, without leading or trailing blanks.
pub open spec fn media_type(ct: Seq<char>) -> Seq<char> {
    let end = semicolon_from(ct, 0);
    let start = skip_blanks(ct, 0, end);
    ct.subrange(start, drop_trailing_blanks(ct, start, end))
}

/// `c` is `lower`, or the upper-case ASCII letter of the lower-case `lower`.
pub open spec fn folds_to(c: char, lower: char) -> bool {
    c == lower || ('A' <= c <= 'Z' && c as u32 + 32 == lower as u32)
}

/// `s` equals the lower-case text `lower` when ASCII case is ignored.
pub open spec fn folds_to_text(s: Seq<char>, lower: Seq<char>) -> bool {
    &&& s.len() == lower.len()
    &&& forall|i: int| 0 <= i < s.len() ==> folds_to(#[trigger] s[i], lower[i])
}

/// Whether a content type header value announces a form-encoded body.
pub open spec fn is_form_content_type_spec(ct: Seq<char>) -> bool {
    folds_to_text(media_type(ct), FORM_MEDIA_TYPE@)
}

/// Whether the content type header value `ct` announces a form-encoded body:
/// its media type is `application/x-www-form-urlencoded` in any ASCII case.
pub fn is_form_content_type(ct: &str) -> (r: bool)
    ensures
        r == is_form_content_type_spec(ct@),
{
    let n = ct.unicode_len();
    let mut end: usize = 0;
    while end < n && ct.get_char(end) != ';'
        invariant
            n == ct@.len(),
            end <= n,
            semicolon_from(ct@, end as int) == semicolon_from(ct@, 0),
        decreases n - end,
    {
        end = end + 1;
    }
    let mut start: usize = 0;
    while start < end && (ct.get_char(start) == ' ' || ct.get_char(start) == '\t')
        invariant
            n == ct@.len(),
            end <= n,
            start <= end,
            skip_blanks(ct@, start as int, end as int) == skip_blanks(ct@, 0, end as int),
        decreases end - start,
    {
        start = start + 1;
    }
    let mut stop: usize = end;
    while start < stop && (ct.get_char(stop - 1) == ' ' || ct.get_char(stop - 1) == '\t')
        invariant
            n == ct@.len(),
            start <= stop <= end <= n,
            drop_trailing_blanks(ct@, start as int, stop as int)
                == drop_trailing_blanks(ct@, start as int, end as int),
        decreases stop - start,
    {
        stop = stop - 1;
    }
    let ghost mt = ct@.subrange(start as int, stop as int);
    assert(mt == media_type(ct@));
    let m = FORM_MEDIA_TYPE.unicode_len();
    if stop - start != m {
        return false;
    }
    let mut i: usize = 0;
    while i < m
        invariant
            n == ct@.len(),
            start <= stop <= n,
            m == stop - start,
            m == FORM_MEDIA_TYPE@.len(),
            mt == ct@.subrange(start as int, stop as int),
            mt == media_type(ct@),
            i <= m,
            forall|k: int| 0 <= k < i ==> folds_to(#[trigger] mt[k], FORM_MEDIA_TYPE@[k]),
        decreases m - i,
    {
        let c = ct.get_char(start + i);
        let l = FORM_MEDIA_TYPE.get_char(i);
        if !(c == l || ('A' <= c && c <= 'Z' && (c as u32) + 32 == l as u32)) {
            assert(!folds_to(mt[i as int], FORM_MEDIA_TYPE@[i as int]));
            return false;
        }
        i = i + 1;
    }
    true
}

} // verus!
