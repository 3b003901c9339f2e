//! Form encoding, done by `serde_urlencoded`.
use vstd::prelude::*;

verus! {

/// Names the form encoding of `pairs`, as `k=v` pieces joined by `&`.
pub uninterp spec fn urlencoded(pairs: Seq<(Seq<char>, Seq<char>)>) -> Seq<char>;

#[verifier::external_type_specification]
#[verifier::external_body]
pub struct ExUrlencodedError(serde_urlencoded::ser::Error);

/// Relies on `serde_urlencoded::to_string` to form-encode a sequence of string
/// pairs: string keys and values always encode, and what it writes depends on
/// the pairs alone.
#[verifier::external_body]
pub(crate) fn urlencode(pairs: &Vec<(String, String)>) -> (r: Result<String, serde_urlencoded::ser::Error>)
    ensures
        r is Ok && r->Ok_0@ == urlencoded(pairs.deep_view()),
{
    serde_urlencoded::to_string(pairs)
}

} // verus!
