use vstd::prelude::*;
use vstd::utf8::valid_utf8;

verus! {

/// An ASCII hex digit, in either case.
pub open spec fn is_hex_digit(b: u8) -> bool {
    (0x30 <= b <= 0x39) || (0x41 <= b <= 0x46) || (0x61 <= b <= 0x66)
}

/// The value of a hex digit.
pub open spec fn hex_value(b: u8) -> int {
    if b <= 0x39 {
        b - 0x30
    } else if b <= 0x46 {
        b - 0x41 + 10
    } else {
        b - 0x61 + 10
    }
}

/// Every `%` of `s` starts an escape: two hex digits follow it.
pub open spec fn escapes_well_formed(s: Seq<u8>) -> bool {
    forall|i: int|
        0 <= i < s.len() && #[trigger] s[i] == 0x25 ==> i + 2 < s.len() && is_hex_digit(s[i + 1])
            && is_hex_digit(s[i + 2])
}

/// `s` with each escape `%XY` replaced by the byte that `XY` stands for.
pub open spec fn percent_decoded(s: Seq<u8>) -> Seq<u8>
    decreases s.len(),
{
    if s.len() == 0 {
        Seq::empty()
    } else if s[0] == 0x25 && s.len() >= 3 && is_hex_digit(s[1]) && is_hex_digit(s[2]) {
        seq![(hex_value(s[1]) * 16 + hex_value(s[2])) as u8] + percent_decoded(s.skip(3))
    } else {
        seq![s[0]] + percent_decoded(s.skip(1))
    }
}

/// A well-formed form body: its escapes are well formed, and the bytes it
/// stands for are UTF-8.
pub open spec fn form_body_well_formed(s: Seq<u8>) -> bool {
    escapes_well_formed(s) && valid_utf8(percent_decoded(s))
}

fn is_hex(b: u8) -> (r: bool)
    ensures
        r == is_hex_digit(b),
{
    (0x30 <= b && b <= 0x39) || (0x41 <= b && b <= 0x46) || (0x61 <= b && b <= 0x66)
}

fn hex(b: u8) -> (r: u8)
    requires
        is_hex_digit(b),
    ensures
        r == hex_value(b),
        r < 16,
{
    if b <= 0x39 {
        b - 0x30
    } else if b <= 0x46 {
        b - 0x41 + 10
    } else {
        b - 0x61 + 10
    }
}

/// Whether every `%` of `s` starts an escape of two hex digits.
pub fn has_well_formed_escapes(s: &[u8]) -> (r: bool)
    ensures
        r == escapes_well_formed(s@),
{
    let mut i: usize = 0;
    while i < s.len()
        invariant
            i <= s@.len(),
            forall|k: int|
                0 <= k < i && #[trigger] s@[k] == 0x25 ==> k + 2 < s@.len() && is_hex_digit(
                    s@[k + 1],
                ) && is_hex_digit(s@[k + 2]),
        decreases s@.len() - i,
    {
        if s[i] == 0x25 && !(s.len() - i > 2 && is_hex(s[i + 1]) && is_hex(s[i + 2])) {
            assert(s@[i as int] == 0x25);
            return false;
        }
        i = i + 1;
    }
    true
}

/// Replaces each escape `%XY` of `s` by the byte that `XY` stands for.
pub fn percent_decode(s: &[u8]) -> (r: Vec<u8>)
    ensures
        r@ == percent_decoded(s@),
{
    let mut out: Vec<u8> = Vec::new();
    let mut i: usize = 0;
    assert(s@.skip(0) =~= s@);
    while i < s.len()
        invariant
            i <= s@.len(),
            percent_decoded(s@) == out@ + percent_decoded(s@.skip(i as int)),
        decreases s@.len() - i,
    {
        let ghost rest = s@.skip(i as int);
        let ghost before = out@;
        if s[i] == 0x25 && s.len() - i > 2 && is_hex(s[i + 1]) && is_hex(s[i + 2]) {
            let b = hex(s[i + 1]) * 16 + hex(s[i + 2]);
            out.push(b);
            assert(rest.skip(3) =~= s@.skip(i + 3));
            assert(out@ + percent_decoded(rest.skip(3)) =~= before + percent_decoded(rest));
            i = i + 3;
        } else {
            out.push(s[i]);
            assert(rest.skip(1) =~= s@.skip(i + 1));
            assert(out@ + percent_decoded(rest.skip(1)) =~= before + percent_decoded(rest));
            i = i + 1;
        }
    }
    assert(s@.skip(i as int) =~= Seq::<u8>::empty());
    assert(out@ + Seq::<u8>::empty() =~= out@);
    out
}

/// Relies on `std::str::from_utf8`: it succeeds exactly on well-formed UTF-8.
#[verifier::external_body]
fn is_utf8(b: &[u8]) -> (r: bool)
    ensures
        r == valid_utf8(b@),
{
    std::str::from_utf8(b).is_ok()
}

/// Whether `s` is a well-formed form body.
pub fn is_well_formed_form_body(s: &[u8]) -> (r: bool)
    ensures
        r == form_body_well_formed(s@),
{
    if !has_well_formed_escapes(s) {
        return false;
    }
    let decoded = percent_decode(s);
    is_utf8(decoded.as_slice())
}

} // verus!
