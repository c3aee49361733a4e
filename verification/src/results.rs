//! How the values the C API hands back become Rust results: C strings owned
//! by another object, counts that signal failure by being negative, and
//! arrays that may be missing.
use vstd::prelude::*;
use crate::error::Error;

verus! {

/// What `String::from_utf8_lossy` makes of a byte string: invalid sequences
/// are replaced by U+FFFD.
pub uninterp spec fn utf8_lossy(bytes: Seq<u8>) -> Seq<char>;

/// Calls `String::from_utf8_lossy` and takes the result as an owned `String`.
/// The contract claims that the result is a function of the bytes, and, as
/// std documents, that valid UTF-8 is decoded unchanged; how invalid
/// sequences are replaced is not stated.
#[verifier::external_body]
fn lossy_string(bytes: &[u8]) -> (r: String)
    ensures
        r@ == utf8_lossy(bytes@),
        vstd::utf8::valid_utf8(bytes@) ==> vstd::utf8::encode_utf8(r@) == bytes@,
{
    String::from_utf8_lossy(bytes).into_owned()
}

/// Reads an owned Rust `String` out of the bytes of a C string owned by some
/// other object (`None`: the C function returned NULL).
pub fn owned_str_from(raw: Option<&[u8]>) -> (r: Option<String>)
    ensures
        raw is None <==> r is None,
        raw matches Some(b) ==> r matches Some(s) && s@ == utf8_lossy(b@),
        raw matches Some(b) ==> (vstd::utf8::valid_utf8(b@) ==> (r matches Some(s)
            && vstd::utf8::encode_utf8(s@) == b@)),
{
    match raw {
        Some(b) => Some(lossy_string(b)),
        None => None,
    }
}

/// A string that a call must hand back: a missing one (NULL) is reported as
/// `Error::CreateFailed(what)`.
pub fn returned_string(raw: Option<&[u8]>, what: &'static str) -> (r: Result<String, Error>)
    ensures
        raw is None <==> r == Err::<String, Error>(Error::CreateFailed(what)),
        raw matches Some(b) ==> r matches Ok(s) && s@ == utf8_lossy(b@),
{
    match owned_str_from(raw) {
        Some(s) => Ok(s),
        None => Err(Error::CreateFailed(what)),
    }
}

/// A count that the C API reports as negative on failure, such as the number
/// of tokens in a conversation's KV cache.
pub fn check_count(count: i32, what: &'static str) -> (r: Result<i32, Error>)
    ensures
        count >= 0 <==> r == Ok::<i32, Error>(count),
        count < 0 <==> r == Err::<i32, Error>(Error::CallFailed(what)),
{
    if count < 0 {
        Err(Error::CallFailed(what))
    } else {
        Ok(count)
    }
}

/// An owned copy of an array of token ids.
pub fn copy_ids(ids: &[i32]) -> (r: Vec<i32>)
    ensures
        r@ == ids@,
{
    let mut out: Vec<i32> = Vec::new();
    let mut i: usize = 0;
    while i < ids.len()
        invariant
            i <= ids@.len(),
            out@ == ids@.take(i as int),
        decreases ids@.len() - i,
    {
        out.push(ids[i]);
        i = i + 1;
        assert(out@ == ids@.take(i as int));
    }
    assert(ids@.take(i as int) == ids@);
    out
}

/// The token ids a tokenize result hands out: an owned copy of the array,
/// empty when the C API gave no array (NULL).
pub fn tokens_from(raw: Option<&[i32]>) -> (r: Vec<i32>)
    ensures
        raw matches Some(s) ==> r@ == s@,
        raw is None ==> r@.len() == 0,
{
    match raw {
        Some(s) => copy_ids(s),
        None => Vec::new(),
    }
}

/// The token ids of a token union, from the status of the C call and the
/// array it pointed at: `None` when the call failed or gave no array.
pub fn token_ids(status: i32, ids: Option<&[i32]>) -> (r: Option<Vec<i32>>)
    ensures
        (status == 0 && ids is Some) <==> r is Some,
        r matches Some(v) ==> ids matches Some(s) && v@ == s@,
{
    if status != 0 {
        return None;
    }
    match ids {
        Some(s) => Some(copy_ids(s)),
        None => None,
    }
}

/// How many per-token scores to copy for a response candidate, given whether
/// the candidate has scores, whether the C API handed back an array, and the
/// count it reported: `None` when there is nothing to copy.
pub fn token_scores_len(has_scores: bool, has_array: bool, num: i32) -> (r: Option<usize>)
    ensures
        (has_scores && has_array && num > 0) <==> r is Some,
        r matches Some(n) ==> n == num,
{
    if !has_scores {
        return None;
    }
    if !has_array || num <= 0 {
        return None;
    }
    Some(num as usize)
}

} // verus!
