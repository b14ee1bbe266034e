//! Small operations on text that the rest of the crate shares.

use vstd::prelude::*;
use vstd::utf8::*;

verus! {

/// Tells whether two string slices hold the same text.
pub fn str_eq(a: &str, b: &str) -> (same: bool)
    ensures
        same == (a@ == b@),
{
    let x = a.as_bytes();
    let y = b.as_bytes();
    proof {
        // A text is the decoding of its bytes, so equal bytes mean equal text.
        encode_utf8_decode_utf8(a@);
        encode_utf8_decode_utf8(b@);
    }
    if x.len() != y.len() {
        return false;
    }
    let mut i: usize = 0;
    while i < x.len()
        invariant
            i <= x.len(),
            x.len() == y.len(),
            x@ == encode_utf8(a@),
            y@ == encode_utf8(b@),
            forall|j: int| 0 <= j < i ==> x[j] == y[j],
        decreases x.len() - i,
    {
        if x[i] != y[i] {
            return false;
        }
        i += 1;
    }
    assert(x@ =~= y@);
    true
}

/// Calls `std::str::from_utf8`: the bytes are text exactly when they are
/// valid UTF-8, and the text then has those very bytes.
#[verifier::external_body]
pub(crate) fn utf8_text(bytes: &[u8]) -> (r: Option<&str>)
    ensures
        r is Some <==> valid_utf8(bytes@),
        r matches Some(s) ==> encode_utf8(s@) == bytes@,
{
    std::str::from_utf8(bytes).ok()
}

/// What `String::from_utf16` makes of UTF-16 code units: the text that they
/// encode, `None` where they encode none.
pub uninterp spec fn utf16_decoded(units: Seq<u16>) -> Option<Seq<char>>;

/// Calls `String::from_utf16`. The contract only names the outcome: the
/// decoding is that of the standard library.
#[verifier::external_body]
pub(crate) fn utf16_text(units: &[u16]) -> (r: Option<String>)
    ensures
        match r {
            Some(text) => utf16_decoded(units@) == Some(text@),
            None => utf16_decoded(units@) is None,
        },
{
    String::from_utf16(units).ok()
}

} // verus!
