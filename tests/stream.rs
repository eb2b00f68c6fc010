use value_bag::stream::Collector;

#[test]
fn root_primitive() {
    let mut c = Collector::new();
    c.u64(42).unwrap();
    let v = c.finish().expect("a value");
    assert_eq!(Some(42), v.by_ref().to_u64());
}

#[test]
fn root_text_in_fragments() {
    let mut c = Collector::new();
    c.text_begin().unwrap();
    c.text_fragment("some ").unwrap();
    c.text_fragment("borrowed string").unwrap();
    c.text_end().unwrap();
    let v = c.finish().expect("a value");
    assert_eq!(Some("some borrowed string"), v.by_ref().to_borrowed_str());
}

#[test]
fn sequence_flattens_one_level() {
    let mut c = Collector::new();
    c.seq_begin().unwrap();
    c.seq_value_begin().unwrap();
    c.i64(-1).unwrap();
    c.seq_value_begin().unwrap();
    c.seq_begin().unwrap();
    c.seq_value_begin().unwrap();
    c.u64(99).unwrap();
    c.seq_end().unwrap();
    c.seq_value_begin().unwrap();
    c.bool(true).unwrap();
    c.seq_value_begin().unwrap();
    c.null().unwrap();
    c.seq_end().unwrap();
    let v = c.finish().expect("a value");
    assert_eq!(Some(vec![Some(-1), None, None, None]), v.by_ref().to_i64_seq());
    assert_eq!(Some(vec![None, None, Some(true), None]), v.by_ref().to_bool_seq());
}

#[test]
fn maps_are_not_supported() {
    let mut c = Collector::new();
    c.map_begin().unwrap();
    c.map_key_begin().unwrap();
    let err = c.text_begin().and_then(|_| c.text_end()).unwrap_err();
    assert_eq!("maps are not supported", err.to_string());
    c.map_value_begin().unwrap();
    assert!(c.u64(1).is_err());
    c.map_end().unwrap();
    let v = c.finish().expect("a value");
    assert_eq!("None", v.to_string().unwrap());
}

#[test]
fn map_in_sequence_is_absent() {
    let mut c = Collector::new();
    c.seq_begin().unwrap();
    c.seq_value_begin().unwrap();
    c.map_begin().unwrap();
    c.map_key_begin().unwrap();
    c.u64(1).unwrap();
    c.map_value_begin().unwrap();
    c.u64(2).unwrap();
    c.map_end().unwrap();
    c.seq_value_begin().unwrap();
    c.u128(7).unwrap();
    c.seq_end().unwrap();
    let v = c.finish().expect("a value");
    assert_eq!(Some(vec![None, Some(7)]), v.by_ref().to_u128_seq());
}

#[test]
fn empty_stream_and_unbalanced_end() {
    let mut c = Collector::new();
    assert!(c.seq_end().is_err());
    assert!(c.map_end().is_err());
    assert!(c.finish().is_none());
}
