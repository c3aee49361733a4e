use litertlm_rs::{InputData, InputDataType, TokenUnion, TokenUnionType, TokenUnions};

fn stop_tokens() -> TokenUnions {
    TokenUnions::new(vec![
        Some(TokenUnion::new(TokenUnionType::String, Some("<eos>".to_string()), None)),
        Some(TokenUnion::new(TokenUnionType::Ids, None, Some(vec![1, 106]))),
        None,
    ])
}

#[test]
fn token_unions_len_and_is_empty() {
    let t = stop_tokens();
    assert_eq!(t.len(), 3);
    assert!(!t.is_empty());
    let e = TokenUnions::new(vec![]);
    assert_eq!(e.len(), 0);
    assert!(e.is_empty());
}

#[test]
fn token_unions_get() {
    let t = stop_tokens();
    let first = t.get(0).unwrap();
    assert_eq!(first.union_type(), TokenUnionType::String);
    assert_eq!(first.as_string(), Some("<eos>".to_string()));
    assert_eq!(first.as_ids(), None);
    let second = t.get(1).unwrap();
    assert_eq!(second.union_type(), TokenUnionType::Ids);
    assert_eq!(second.as_string(), None);
    assert_eq!(second.as_ids(), Some(vec![1, 106]));
    assert!(t.get(2).is_none());
    assert!(t.get(3).is_none());
    assert!(t.get(usize::MAX).is_none());
}

#[test]
fn token_union_duplicate_is_equal() {
    let t = TokenUnion::new(TokenUnionType::Ids, None, Some(vec![5]));
    let d = t.duplicate();
    assert_eq!(d.union_type(), TokenUnionType::Ids);
    assert_eq!(d.as_ids(), Some(vec![5]));
}

#[test]
fn input_data_text() {
    let d = InputData::text("hi é").unwrap();
    assert_eq!(d.data_type(), InputDataType::Text);
    assert_eq!(d.data(), "hi é".as_bytes());
}

#[test]
fn input_data_new() {
    let d = InputData::new(InputDataType::Image, &[0xFF, 0xD8, 0x00]).unwrap();
    assert_eq!(d.data_type(), InputDataType::Image);
    assert_eq!(d.data(), &[0xFF, 0xD8, 0x00]);
    let e = InputData::new(InputDataType::AudioEnd, &[]).unwrap();
    assert_eq!(e.data(), &[] as &[u8]);
}

#[test]
fn token_union_keeps_only_its_own_kind() {
    let s = TokenUnion::new(TokenUnionType::String, Some("<eos>".to_string()), Some(vec![7]));
    assert_eq!(s.as_string(), Some("<eos>".to_string()));
    assert_eq!(s.as_ids(), None);
    let i = TokenUnion::new(TokenUnionType::Ids, Some("x".to_string()), Some(vec![7]));
    assert_eq!(i.as_string(), None);
    assert_eq!(i.as_ids(), Some(vec![7]));
}
