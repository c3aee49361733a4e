use litertlm_rs::{tokens_from, check_count, owned_str_from, returned_string, token_ids, token_scores_len, Error};

#[test]
fn owned_str_from_null_is_none() {
    assert_eq!(owned_str_from(None), None);
}

#[test]
fn owned_str_from_decodes_utf8() {
    assert_eq!(owned_str_from(Some(b"hello")), Some("hello".to_string()));
    assert_eq!(owned_str_from(Some("héllo".as_bytes())), Some("héllo".to_string()));
    assert_eq!(owned_str_from(Some(b"")), Some(String::new()));
}

#[test]
fn owned_str_from_replaces_invalid_bytes() {
    assert_eq!(owned_str_from(Some(&[b'a', 0xFF, b'b'])), Some("a\u{FFFD}b".to_string()));
}

#[test]
fn returned_string_requires_a_string() {
    assert_eq!(returned_string(Some(b"{}"), "f"), Ok("{}".to_string()));
    assert_eq!(
        returned_string(None, "litert_lm_json_response_get_string"),
        Err(Error::CreateFailed("litert_lm_json_response_get_string"))
    );
}

#[test]
fn check_count_rejects_negative() {
    assert_eq!(check_count(0, "c"), Ok(0));
    assert_eq!(check_count(17, "c"), Ok(17));
    assert_eq!(
        check_count(-1, "litert_lm_conversation_get_token_count"),
        Err(Error::CallFailed("litert_lm_conversation_get_token_count"))
    );
}

#[test]
fn token_ids_cases() {
    assert_eq!(token_ids(0, Some(&[1, 2, 3])), Some(vec![1, 2, 3]));
    assert_eq!(token_ids(0, Some(&[])), Some(vec![]));
    assert_eq!(token_ids(1, Some(&[1])), None);
    assert_eq!(token_ids(0, None), None);
}

#[test]
fn token_scores_len_cases() {
    assert_eq!(token_scores_len(true, true, 4), Some(4));
    assert_eq!(token_scores_len(false, true, 4), None);
    assert_eq!(token_scores_len(true, false, 4), None);
    assert_eq!(token_scores_len(true, true, 0), None);
    assert_eq!(token_scores_len(true, true, -3), None);
}

#[test]
fn tokens_from_cases() {
    assert_eq!(tokens_from(Some(&[2, 651, 9])), vec![2, 651, 9]);
    assert_eq!(tokens_from(Some(&[])), Vec::<i32>::new());
    assert_eq!(tokens_from(None), Vec::<i32>::new());
}
