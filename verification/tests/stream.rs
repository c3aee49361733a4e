use litertlm_rs::{chunk_outcome, finish_stream, Error};

#[test]
fn non_final_chunk_reports_nothing() {
    assert_eq!(chunk_outcome(false, None), None);
    assert_eq!(chunk_outcome(false, Some("err".to_string())), None);
}

#[test]
fn final_chunk_reports_outcome() {
    assert_eq!(chunk_outcome(true, None), Some(Ok(())));
    assert_eq!(chunk_outcome(true, Some("oom".to_string())), Some(Err("oom".to_string())));
}

#[test]
fn finish_stream_results() {
    assert_eq!(finish_stream(Some(Ok(()))), Ok(()));
    assert_eq!(finish_stream(Some(Err("oom".to_string()))), Err(Error::Stream("oom".to_string())));
    assert_eq!(
        finish_stream(None),
        Err(Error::Stream("stream channel closed before a final chunk arrived".to_string()))
    );
}

#[test]
fn final_error_chunk_fails_the_stream() {
    let report = chunk_outcome(true, Some("bad input".to_string()));
    assert_eq!(finish_stream(report), Err(Error::Stream("bad input".to_string())));
    assert_eq!(finish_stream(chunk_outcome(true, None)), Ok(()));
}
