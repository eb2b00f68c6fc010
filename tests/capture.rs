use std::io;

use value_bag::ValueBag;

#[test]
fn capture_prefers_primitive() {
    assert_eq!(Some(1), ValueBag::capture_debug(&1u8).to_u64());
    assert_eq!(Some(-3), ValueBag::capture_display(&-3i32).to_i64());
    assert_eq!(Some("text"), ValueBag::capture_debug(&"text").to_borrowed_str());
    assert_eq!(None, ValueBag::from_debug(&1u8).to_u64());
}

#[test]
fn try_capture_candidates() {
    assert_eq!(Some(42), ValueBag::try_capture(&42u16).unwrap().to_u64());
    assert_eq!(Some(-42), ValueBag::try_capture(&-42i128).unwrap().to_i128());
    assert_eq!(Some('c'), ValueBag::try_capture(&'c').unwrap().to_char());
    assert_eq!(Some(true), ValueBag::try_capture(&true).unwrap().to_bool());
    assert_eq!(Some(5), ValueBag::try_capture(&Some(5usize)).unwrap().to_u64());
    let none: Option<u8> = None;
    let absent = ValueBag::try_capture(&none).unwrap();
    assert_eq!(None, absent.to_u64());
    assert!(ValueBag::try_capture(&vec![1u8]).is_none());
    assert!(ValueBag::try_capture(&String::from("s")).is_none());
}

#[test]
fn error_downcast() {
    let err = io::Error::from(io::ErrorKind::Other);

    assert!(ValueBag::capture_error(&err).is::<io::Error>());
}

#[test]
fn identity_checks() {
    let err = io::Error::from(io::ErrorKind::Other);
    assert!(!ValueBag::capture_error(&err).is::<String>());

    let v = vec![1u8];
    assert!(ValueBag::capture_debug(&v).is::<Vec<u8>>());
    assert!(!ValueBag::capture_debug(&v).is::<Vec<u16>>());
    assert!(!ValueBag::from_debug(&v).is::<Vec<u8>>());
    let s = String::from("shown");
    assert!(ValueBag::capture_display(&s).is::<String>());
    assert!(!ValueBag::from_display(&s).is::<String>());
    assert!(!ValueBag::from(1u8).is::<u8>());
}

#[test]
fn error_capture() {
    let err = io::Error::from(io::ErrorKind::Other);

    assert_eq!(
        err.to_string(),
        ValueBag::capture_error(&err)
            .to_borrowed_error()
            .expect("invalid value")
            .to_string()
    );
}

#[test]
fn only_errors_give_errors() {
    assert!(ValueBag::from(1u8).to_borrowed_error().is_none());
    assert!(ValueBag::from_display(&"x").to_borrowed_error().is_none());
}
