//! The error type of the crate, and the checks that turn the C API's
//! conventions (NULL handles, non-zero status codes, NUL-terminated strings)
//! into `Result`s.
use vstd::prelude::*;
use vstd::string::StringSliceAdditionalSpecFns;

verus! {

/// Errors returned by this crate.
#[derive(Debug, PartialEq, Eq)]
pub enum Error {
    /// A Rust string passed to the C API contained an interior NUL byte.
    NulArgument(&'static str),
    /// A `_create` function returned NULL.
    CreateFailed(&'static str),
    /// A function that returns a C "0 = success" status code returned non-zero.
    CallFailed(&'static str),
    /// The stream ended with an error chunk.
    Stream(String),
}

/// The human-readable description of an error, as the crate prints it.
pub open spec fn error_text(e: Error) -> Seq<char> {
    match e {
        Error::NulArgument(name) => "argument `"@ + name@ + "` contained a NUL byte"@,
        Error::CreateFailed(what) => what@ + " returned NULL"@,
        Error::CallFailed(what) => what@ + " returned a failure status"@,
        Error::Stream(msg) => "stream error: "@ + msg@,
    }
}

impl Error {
    /// Renders the error the way it is displayed to users, e.g.
    /// "litert_lm_engine_create returned NULL".
    pub fn to_string(&self) -> (r: String)
        ensures
            r@ == error_text(*self),
    {
        match self {
            Error::NulArgument(name) => {
                let mut s = String::from_str("argument `");
                s.append(name);
                s.append("` contained a NUL byte");
                s
            },
            Error::CreateFailed(what) => {
                let mut s = String::from_str(what);
                s.append(" returned NULL");
                s
            },
            Error::CallFailed(what) => {
                let mut s = String::from_str(what);
                s.append(" returned a failure status");
                s
            },
            Error::Stream(msg) => {
                let mut s = String::from_str("stream error: ");
                s.append(msg.as_str());
                s
            },
        }
    }
}

/// Turns what a `_create` function handed back into a `Result`: a missing
/// handle (the C function returned NULL) becomes `Error::CreateFailed(what)`.
pub fn check_created<T>(handle: Option<T>, what: &'static str) -> (r: Result<T, Error>)
    ensures
        handle is None <==> r == Err::<T, Error>(Error::CreateFailed(what)),
        handle matches Some(h) ==> r == Ok::<T, Error>(h),
{
    match handle {
        Some(h) => Ok(h),
        None => Err(Error::CreateFailed(what)),
    }
}

/// Turns a C "0 = success" status code into a `Result`.
pub fn check_status(ret: i32, what: &'static str) -> (r: Result<(), Error>)
    ensures
        ret == 0 <==> r is Ok,
        ret != 0 <==> r == Err::<(), Error>(Error::CallFailed(what)),
{
    if ret != 0 {
        Err(Error::CallFailed(what))
    } else {
        Ok(())
    }
}

/// Whether the UTF-8 encoding of a string holds a NUL byte, which a C string
/// cannot carry.
pub open spec fn has_nul(bytes: Seq<u8>) -> bool {
    exists|i: int| 0 <= i < bytes.len() && bytes[i] == 0
}

/// Prepares a string for the C API: its UTF-8 bytes followed by the NUL
/// terminator. A string with an interior NUL byte is refused with
/// `Error::NulArgument("<string argument>")`.
pub fn cstr(s: &str) -> (r: Result<Vec<u8>, Error>)
    ensures
        has_nul(s.spec_bytes()) <==> r is Err,
        r matches Err(e) ==> e == Error::NulArgument("<string argument>"),
        r matches Ok(v) ==> v@ == s.spec_bytes().push(0u8),
{
    let bytes = s.as_bytes();
    let mut out: Vec<u8> = Vec::new();
    let mut i: usize = 0;
    while i < bytes.len()
        invariant
            bytes@ == s.spec_bytes(),
            i <= bytes@.len(),
            out@ == bytes@.take(i as int),
            forall|j: int| 0 <= j < i ==> bytes@[j] != 0,
        decreases bytes@.len() - i,
    {
        if bytes[i] == 0 {
            return Err(Error::NulArgument("<string argument>"));
        }
        out.push(bytes[i]);
        i = i + 1;
        assert(out@ == bytes@.take(i as int));
    }
    assert(bytes@.take(i as int) == bytes@);
    out.push(0u8);
    Ok(out)
}

/// Prepares an optional string argument for the C API: `None` stays `None`
/// (passed on as a NULL pointer), a string is prepared as by [`cstr`].
pub fn cstr_opt(s: Option<&str>) -> (r: Result<Option<Vec<u8>>, Error>)
    ensures
        s is None ==> r == Ok::<Option<Vec<u8>>, Error>(None),
        s matches Some(x) ==> (has_nul(x.spec_bytes()) <==> r is Err),
        r matches Err(e) ==> e == Error::NulArgument("<string argument>"),
        r matches Ok(Some(v)) ==> s matches Some(x) && v@ == x.spec_bytes().push(0u8),
        s matches Some(x) ==> (!has_nul(x.spec_bytes()) ==> (r matches Ok(Some(v))
            && v@ == x.spec_bytes().push(0u8))),
{
    match s {
        Some(x) => match cstr(x) {
            Ok(v) => Ok(Some(v)),
            Err(e) => Err(e),
        },
        None => Ok(None),
    }
}

/// Whether some string of a list holds a NUL byte.
pub open spec fn any_has_nul(texts: Seq<&str>) -> bool {
    exists|i: int| 0 <= i < texts.len() && has_nul(#[trigger] texts[i].spec_bytes())
}

/// Prepares every string of a list for the C API, in order; the first string
/// with an interior NUL byte makes the whole list fail.
pub fn cstr_all(texts: &[&str]) -> (r: Result<Vec<Vec<u8>>, Error>)
    ensures
        any_has_nul(texts@) <==> r is Err,
        r matches Err(e) ==> e == Error::NulArgument("<string argument>"),
        r matches Ok(v) ==> v@.len() == texts@.len() && forall|i: int|
            0 <= i < texts@.len() ==> (#[trigger] v@[i])@ == texts@[i].spec_bytes().push(0u8),
{
    let mut out: Vec<Vec<u8>> = Vec::new();
    let mut i: usize = 0;
    while i < texts.len()
        invariant
            i <= texts@.len(),
            out@.len() == i,
            forall|j: int| 0 <= j < i ==> (#[trigger] out@[j])@ == texts@[j].spec_bytes().push(0u8),
            forall|j: int| 0 <= j < i ==> !has_nul(#[trigger] texts@[j].spec_bytes()),
        decreases texts@.len() - i,
    {
        match cstr(texts[i]) {
            Ok(v) => {
                out.push(v);
            },
            Err(e) => {
                return Err(e);
            },
        }
        i = i + 1;
    }
    Ok(out)
}

} // verus!
