use std::borrow::Cow;

use value_bag::{F64Source, ValueBag};

#[test]
fn to_borrowed_str_seq() {
    let v = ["a", "b", "c"];

    let v = ValueBag::from(&v);

    assert_eq!(
        Some(vec![Some("a"), Some("b"), Some("c")]),
        v.to_borrowed_str_seq()
    );
}

#[test]
fn seq_to_borrowed_str_seq() {
    let v = ["a", "b", "c"];

    let v = ValueBag::from(&v);

    assert_eq!(
        Some(vec![Some("a"), Some("b"), Some("c")]),
        v.to_borrowed_str_seq()
    );
}

#[test]
fn mixed_sequence_keeps_indexes() {
    let items = [
        ValueBag::from(1u8),
        ValueBag::from("x"),
        ValueBag::from(2i32),
        ValueBag::from(3u64),
    ];
    let v = ValueBag::from_seq_slice(&items);

    let floats: Option<Vec<Option<f64>>> = v.to_f64_source_seq().map(|s| {
        s.into_iter()
            .map(|e| {
                e.map(|e| match e {
                    F64Source::Bits(bits) => f64::from_bits(bits),
                    F64Source::Exact(i) => i as f64,
                })
            })
            .collect()
    });
    assert_eq!(Some(vec![Some(1.0), None, Some(2.0), Some(3.0)]), floats);

    assert_eq!(Some(vec![Some(1), None, Some(2), Some(3)]), v.to_u64_seq());
    assert_eq!(Some(vec![Some(1), None, Some(2), Some(3)]), v.to_i64_seq());
    assert_eq!(Some(vec![None, Some("x"), None, None]), v.to_borrowed_str_seq());
}

#[test]
fn not_a_sequence() {
    assert_eq!(None, ValueBag::from(1u8).to_u64_seq());
    assert_eq!(None, ValueBag::from("a").to_borrowed_str_seq());
    assert_eq!(None, ValueBag::from(true).to_bool_seq());
}

#[test]
fn empty_sequence() {
    let empty: [u32; 0] = [];
    assert_eq!(Some(vec![]), ValueBag::from(&empty).to_u64_seq());
}

#[test]
fn sequences_of_each_kind() {
    assert_eq!(Some(vec![Some(1), Some(255)]), ValueBag::from(&[1u8, 255]).to_u64_seq());
    assert_eq!(Some(vec![None, Some(4)]), ValueBag::from(&[-1i16, 4]).to_u64_seq());
    assert_eq!(Some(vec![Some(-1), Some(4)]), ValueBag::from(&[-1i16, 4]).to_i64_seq());
    assert_eq!(
        Some(vec![Some(u128::MAX)]),
        ValueBag::from(&[u128::MAX]).to_u128_seq()
    );
    assert_eq!(Some(vec![None]), ValueBag::from(&[u128::MAX]).to_i128_seq());
    assert_eq!(Some(vec![Some(i128::MIN)]), ValueBag::from(&[i128::MIN]).to_i128_seq());
    assert_eq!(Some(vec![Some(true), Some(false)]), ValueBag::from(&[true, false]).to_bool_seq());
    assert_eq!(Some(vec![Some('a')]), ValueBag::from(&['a']).to_char_seq());
    assert_eq!(
        Some(vec![Some(Cow::Borrowed("s"))]),
        ValueBag::from(&["s"]).to_str_seq()
    );
    let slice: &[usize] = &[3, 4];
    assert_eq!(Some(vec![Some(3), Some(4)]), ValueBag::from_seq_slice(slice).to_u64_seq());
}

#[test]
fn nested_sequence_is_no_element_value() {
    let inner = [1u8, 2];
    let items = [ValueBag::from(&inner), ValueBag::from(5u8)];
    let v = ValueBag::from_seq_slice(&items);
    assert_eq!(Some(vec![None, Some(5)]), v.to_u64_seq());
}

#[test]
fn collect_sequence() {
    let mut vec = vec![Some(0u64)];
    ValueBag::from(&[7u32, 8]).collect_u64(&mut vec);
    assert_eq!(vec![Some(0), Some(7), Some(8)], vec);
}

#[test]
fn element_access() {
    let v = ValueBag::from(&[10u16, 20, 30]);
    assert_eq!(Some(3), v.seq_len());
    assert_eq!(Some(20), v.element(1).and_then(|e| e.to_u64()));
    assert!(v.element(3).is_none());
    assert_eq!(None, ValueBag::from(1u8).seq_len());
    assert!(ValueBag::from(1u8).element(0).is_none());
    let inner = [1u8];
    let items = [ValueBag::from(&inner)];
    let nested = ValueBag::from_seq_slice(&items);
    assert_eq!(Some(1), nested.element(0).and_then(|e| e.seq_len()));
}

#[test]
fn array_casts_keep_negative_in_place() {
    let xs = [3i64, -1, 0];
    assert_eq!(Some(vec![Some(3), None, Some(0)]), ValueBag::from(&xs).to_u128_seq());
    let strs = ["x", "y"];
    let seq = ValueBag::from(&strs).to_str_seq().unwrap();
    assert!(seq.iter().all(|s| matches!(s, Some(Cow::Borrowed(_)))));
}
