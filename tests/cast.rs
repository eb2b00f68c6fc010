use std::borrow::Cow;

use value_bag::{F64Source, ValueBag};

#[test]
fn primitive_cast() {
    let short_lived = "a string".to_owned();
    assert_eq!(
        "a string",
        ValueBag::from(&*short_lived)
            .to_borrowed_str()
            .expect("invalid value")
    );
    assert_eq!(
        "a string",
        &*ValueBag::from("a string").to_str().expect("invalid value")
    );
    assert_eq!(
        "a string",
        ValueBag::from(&*short_lived)
            .to_borrowed_str()
            .expect("invalid value")
    );
    // A `String` is not one of the primitives that capturing recovers.
    assert!(ValueBag::try_capture(&short_lived).is_none());
}

#[test]
fn primitive_collect() {
    let mut vec = Vec::<Option<Cow<str>>>::new();
    ValueBag::from("string").collect_str(&mut vec);
    assert_eq!(vec![Some(Cow::Borrowed("string"))], vec);
}

fn f64_of(source: F64Source) -> f64 {
    match source {
        F64Source::Bits(bits) => f64::from_bits(bits),
        F64Source::Exact(v) => v as f64,
    }
}

#[test]
fn mod_primitive_cast() {
    assert_eq!(
        "a string",
        ValueBag::from("a string")
            .by_ref()
            .to_borrowed_str()
            .expect("invalid value")
    );

    assert_eq!(1u64, ValueBag::from(1u8).by_ref().to_u64().expect("invalid value"));
    assert_eq!(1u64, ValueBag::from(1u16).by_ref().to_u64().expect("invalid value"));
    assert_eq!(1u64, ValueBag::from(1u32).by_ref().to_u64().expect("invalid value"));
    assert_eq!(1u64, ValueBag::from(1u64).by_ref().to_u64().expect("invalid value"));
    assert_eq!(1u64, ValueBag::from(1usize).by_ref().to_u64().expect("invalid value"));
    assert_eq!(1u128, ValueBag::from(1u128).by_ref().to_u128().expect("invalid value"));

    assert_eq!(-1i64, ValueBag::from(-1i8).by_ref().to_i64().expect("invalid value"));
    assert_eq!(-1i64, ValueBag::from(-1i8).by_ref().to_i64().expect("invalid value"));
    assert_eq!(-1i64, ValueBag::from(-1i8).by_ref().to_i64().expect("invalid value"));
    assert_eq!(-1i64, ValueBag::from(-1i64).by_ref().to_i64().expect("invalid value"));
    assert_eq!(-1i64, ValueBag::from(-1isize).by_ref().to_i64().expect("invalid value"));
    assert_eq!(-1i128, ValueBag::from(-1i128).by_ref().to_i128().expect("invalid value"));

    assert!(ValueBag::from_f64_bits(1f64.to_bits()).by_ref().to_f64_source().is_some());
    assert!(ValueBag::from(1u64).by_ref().to_f64_source().is_some());
    assert!(ValueBag::from(-1i64).by_ref().to_f64_source().is_some());
    assert!(ValueBag::from(1u128).by_ref().to_f64_source().is_some());
    assert!(ValueBag::from(-1i128).by_ref().to_f64_source().is_some());

    assert!(ValueBag::from(u64::MAX).by_ref().to_u128().is_some());
    assert!(ValueBag::from(i64::MIN).by_ref().to_i128().is_some());
    assert!(ValueBag::from(i64::MAX).by_ref().to_u64().is_some());

    assert!(ValueBag::from(-1i64).by_ref().to_u64().is_none());
    assert!(ValueBag::from(u64::MAX).by_ref().to_i64().is_none());
    assert!(ValueBag::from(u64::MAX).by_ref().to_f64_source().is_none());

    assert!(ValueBag::from(i128::MAX).by_ref().to_i64().is_none());
    assert!(ValueBag::from(u128::MAX).by_ref().to_u64().is_none());

    assert!(ValueBag::from_f64_bits(1f64.to_bits()).by_ref().to_u64().is_none());

    assert_eq!('a', ValueBag::from('a').by_ref().to_char().expect("invalid value"));
    assert_eq!(true, ValueBag::from(true).by_ref().to_bool().expect("invalid value"));
}

#[test]
fn mod_primitive_collect() {
    let mut vec = Vec::<Option<u64>>::new();
    ValueBag::from(1u64).collect_u64(&mut vec);
    assert_eq!(vec![Some(1u64)], vec);

    let mut vec = Vec::<Option<i64>>::new();
    ValueBag::from(1i64).collect_i64(&mut vec);
    assert_eq!(vec![Some(1i64)], vec);

    let mut vec = Vec::<Option<u128>>::new();
    ValueBag::from(1u128).collect_u128(&mut vec);
    assert_eq!(vec![Some(1u128)], vec);

    let mut vec = Vec::<Option<i128>>::new();
    ValueBag::from(1i128).collect_i128(&mut vec);
    assert_eq!(vec![Some(1i128)], vec);

    let mut vec = Vec::<Option<F64Source>>::new();
    ValueBag::from_f64_bits(1f64.to_bits()).collect_f64_source(&mut vec);
    let vec: Vec<Option<f64>> = vec.into_iter().map(|s| s.map(f64_of)).collect();
    assert_eq!(vec![Some(1f64)], vec);

    let mut vec = Vec::<Option<bool>>::new();
    ValueBag::from(true).collect_bool(&mut vec);
    assert_eq!(vec![Some(true)], vec);

    let mut vec = Vec::<Option<char>>::new();
    ValueBag::from('a').collect_char(&mut vec);
    assert_eq!(vec![Some('a')], vec);

    let mut vec = Vec::<Option<&str>>::new();
    ValueBag::from("string").collect_borrowed_str(&mut vec);
    assert_eq!(vec![Some("string")], vec);
}

#[test]
fn round_trip_every_width() {
    assert_eq!(Some(u8::MAX as u64), ValueBag::from(u8::MAX).to_u64());
    assert_eq!(Some(u16::MAX as u64), ValueBag::from(u16::MAX).to_u64());
    assert_eq!(Some(u32::MAX as u64), ValueBag::from(u32::MAX).to_u64());
    assert_eq!(Some(u64::MAX), ValueBag::from(u64::MAX).to_u64());
    assert_eq!(Some(usize::MAX as u64), ValueBag::from(usize::MAX).to_u64());
    assert_eq!(Some(u128::MAX), ValueBag::from(u128::MAX).to_u128());
    assert_eq!(Some(i8::MIN as i64), ValueBag::from(i8::MIN).to_i64());
    assert_eq!(Some(i16::MIN as i64), ValueBag::from(i16::MIN).to_i64());
    assert_eq!(Some(i32::MIN as i64), ValueBag::from(i32::MIN).to_i64());
    assert_eq!(Some(i64::MIN), ValueBag::from(i64::MIN).to_i64());
    assert_eq!(Some(isize::MIN as i64), ValueBag::from(isize::MIN).to_i64());
    assert_eq!(Some(i128::MIN), ValueBag::from(i128::MIN).to_i128());
    assert_eq!(Some(false), ValueBag::from(false).to_bool());
    assert_eq!(Some('z'), ValueBag::from('z').to_char());
    assert_eq!(None, ValueBag::from(-1i64).to_u64());
    assert_eq!(None, ValueBag::from(-1i128).to_u128());
    assert_eq!(None, ValueBag::from(i64::MAX as u64 + 1).to_i64());
    assert_eq!(Some(i64::MAX as i128 + 1), ValueBag::from(i64::MAX as u64 + 1).to_i128());
    assert_eq!(None, ValueBag::from(i128::MAX as u128 + 1).to_i128());
    assert_eq!(Some(u64::MAX), ValueBag::from(u64::MAX as u128).to_u64());
    assert_eq!(None, ValueBag::from(u64::MAX as u128 + 1).to_u64());
    assert_eq!(Some(-5), ValueBag::from(-5i128).to_i64());
    assert_eq!(None, ValueBag::from(()).to_u64());
    assert_eq!(None, ValueBag::from("1").to_u64());
    assert_eq!(None, ValueBag::from(1u8).to_bool());
    assert_eq!(None, ValueBag::from(1u8).to_char());
    assert_eq!(None, ValueBag::from('1').to_borrowed_str());
}

#[test]
fn float_sources() {
    assert_eq!(Some(F64Source::Exact(u32::MAX as i64)), ValueBag::from(u32::MAX).to_f64_source());
    assert_eq!(None, ValueBag::from(u32::MAX as u64 + 1).to_f64_source());
    assert_eq!(Some(F64Source::Exact(i32::MIN as i64)), ValueBag::from(i32::MIN).to_f64_source());
    assert_eq!(None, ValueBag::from(i32::MIN as i64 - 1).to_f64_source());
    // A signed carrier takes the signed 32-bit range, even for a positive value.
    assert_eq!(None, ValueBag::from(u32::MAX as i64).to_f64_source());
    assert_eq!(Some(F64Source::Exact(7)), ValueBag::from(7u128).to_f64_source());
    assert_eq!(None, ValueBag::from(true).to_f64_source());
    let bits = 2.5f64.to_bits();
    assert_eq!(Some(F64Source::Bits(bits)), ValueBag::from_f64_bits(bits).to_f64_source());
}

#[test]
fn collect_non_sequence_pushes_one() {
    let mut vec = vec![Some(9u64)];
    ValueBag::from("x").collect_u64(&mut vec);
    assert_eq!(vec![Some(9u64), None], vec);
}

#[test]
fn options_convert() {
    assert_eq!(Some(3), ValueBag::from(Some(3u8)).to_u64());
    assert_eq!(None, ValueBag::from(None::<u8>).to_u64());
    assert_eq!("None", ValueBag::from(None::<u8>).to_string().unwrap());
    assert_eq!(Some("s"), ValueBag::from_option(Some("s")).to_borrowed_str());
    assert_eq!("None", ValueBag::from_option(None::<bool>).to_string().unwrap());
}

#[test]
fn error_messages() {
    let err = value_bag::Error::try_boxed("failed to visit value", "invalid type");
    assert_eq!("failed to visit value: invalid type", err.to_string());
}

#[test]
fn borrowed_strings_stay_borrowed() {
    let text = String::from("borrowed");
    let bag = ValueBag::from(text.as_str());
    match bag.to_str() {
        Some(Cow::Borrowed(s)) => assert_eq!(text.as_ptr(), s.as_ptr()),
        other => panic!("expected a borrowed string, got {:?}", other),
    }
    let mut vec = Vec::new();
    bag.collect_str(&mut vec);
    assert!(matches!(vec[0], Some(Cow::Borrowed("borrowed"))));
}
