//! Content-type negotiation: the default acceptance rule for CBOR requests,
//! extended by an optional caller-supplied predicate.

use vstd::prelude::*;
use vstd::string::StrSliceExecFns;

use crate::config::ContentTypePredicate;

verus! {

/// The default negotiation rule: exactly these two declared content types
/// are accepted when no custom predicate is installed.
pub open spec fn is_cbor_mime(m: Seq<char>) -> bool {
    m == "application/cbor"@ || m == "cbor"@
}

/// A declared content type is accepted when the default rule holds of it, or
/// when a supplied predicate accepts it; the predicate extends the default
/// rule, it never disables it.
pub open spec fn spec_mime_accepted<P: ContentTypePredicate>(
    predicate: Option<&P>,
    m: Seq<char>,
) -> bool {
    is_cbor_mime(m) || (predicate matches Some(p) && p.spec_accepts(m))
}

/// Character-for-character string equality.
pub(crate) fn str_eq(a: &str, b: &str) -> (r: bool)
    ensures
        r == (a@ == b@),
{
    let a_len = a.unicode_len();
    let b_len = b.unicode_len();
    if a_len != b_len {
        return false;
    }
    let mut i: usize = 0;
    while i < a_len
        invariant
            a@.len() == a_len,
            b@.len() == a_len,
            0 <= i <= a_len,
            forall|j: int| 0 <= j < i ==> a@[j] == b@[j],
        decreases a_len - i,
    {
        if a.get_char(i) != b.get_char(i) {
            return false;
        }
        i = i + 1;
    }
    proof {
        assert(a@ =~= b@);
    }
    true
}

/// The default acceptance rule alone.
pub fn default_content_type(mime: &str) -> (r: bool)
    ensures
        r == is_cbor_mime(mime@),
{
    str_eq(mime, "application/cbor") || str_eq(mime, "cbor")
}

/// The full negotiation decision: default rule OR'ed with the optional
/// predicate.
pub fn mime_accepted<P: ContentTypePredicate>(predicate: Option<&P>, mime: &str) -> (r: bool)
    ensures
        r == spec_mime_accepted(predicate, mime@),
{
    if default_content_type(mime) {
        true
    } else {
        match predicate {
            Some(p) => p.accepts(mime),
            None => false,
        }
    }
}

} // verus!
