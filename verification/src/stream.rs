//! The decisions of the streaming protocol shared by
//! `Conversation::send_message_stream`, `Session::run_decode_async` and
//! `Session::generate_content_stream`.
//!
//! The C functions return at once and call back once per chunk from another
//! thread. The caller blocks until the callback reports that the final chunk
//! has arrived, then turns that report into the call's result. This module
//! holds both decisions: what a chunk reports ([`chunk_outcome`]) and what the
//! call returns for the report it received ([`finish_stream`]).
use vstd::prelude::*;
use crate::error::Error;

verus! {

/// What the callback reports after a chunk: nothing while the stream goes on;
/// for the final chunk, `Ok(())`, or `Err(message)` when the chunk carries an
/// error message.
pub open spec fn chunk_report(is_final: bool, error: Option<String>) -> Option<Result<(), String>> {
    if is_final {
        match error {
            Some(msg) => Some(Err(msg)),
            None => Some(Ok(())),
        }
    } else {
        None
    }
}

/// The message of the error returned when the callback went away without
/// reporting a final chunk.
pub open spec fn channel_closed_message() -> Seq<char> {
    "stream channel closed before a final chunk arrived"@
}

/// The result of a streaming call whose C function accepted the request, for
/// the report received from the callback (`None`: none can arrive any more).
pub open spec fn stream_outcome(received: Option<Result<(), String>>, r: Result<(), Error>) -> bool {
    match received {
        Some(Ok(())) => r == Ok::<(), Error>(()),
        Some(Err(msg)) => r == Err::<(), Error>(Error::Stream(msg)),
        None => r matches Err(Error::Stream(m)) && m@ == channel_closed_message(),
    }
}

/// Decides what the callback reports for a chunk, given whether the chunk is
/// the last one and the error message attached to it, if any.
pub fn chunk_outcome(is_final: bool, error: Option<String>) -> (r: Option<Result<(), String>>)
    ensures
        r == chunk_report(is_final, error),
{
    if is_final {
        match error {
            Some(msg) => Some(Err(msg)),
            None => Some(Ok(())),
        }
    } else {
        None
    }
}

/// Turns the callback's report into the result of the streaming call: an
/// error chunk becomes `Error::Stream` with its message, a missing report
/// becomes `Error::Stream("stream channel closed before a final chunk arrived")`.
pub fn finish_stream(received: Option<Result<(), String>>) -> (r: Result<(), Error>)
    ensures
        stream_outcome(received, r),
{
    match received {
        Some(Ok(())) => Ok(()),
        Some(Err(msg)) => Err(Error::Stream(msg)),
        None => Err(Error::Stream(String::from_str("stream channel closed before a final chunk arrived"))),
    }
}

/// Only the final chunk ends a stream: a chunk reports something exactly
/// when it is the final one, whatever error text it carries.
pub proof fn lemma_only_final_chunk_reports(is_final: bool, error: Option<String>)
    ensures
        chunk_report(is_final, error) is Some <==> is_final,
{
}

/// A stream whose final chunk carries no error succeeds; one whose final
/// chunk carries an error message fails with `Error::Stream` of that message.
pub proof fn lemma_final_chunk_decides(error: Option<String>, r: Result<(), Error>)
    requires
        stream_outcome(chunk_report(true, error), r),
    ensures
        error is None <==> r is Ok,
        error matches Some(msg) ==> r == Err::<(), Error>(Error::Stream(msg)),
{
}

} // verus!
