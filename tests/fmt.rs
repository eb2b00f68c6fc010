use std::io;

use value_bag::ValueBag;

#[test]
fn fmt_to_owned() {
    let debug = ValueBag::from_debug(&"a value").to_owned();
    let display = ValueBag::from_display(&"a value").to_owned();

    assert_eq!("\"a value\"", debug.to_string().unwrap());
    assert_eq!("a value", display.to_string().unwrap());

    let debug = debug.by_ref();
    let display = display.by_ref();

    assert_eq!("\"a value\"", debug.to_string().unwrap());
    assert_eq!("a value", display.to_string().unwrap());
}

#[test]
fn owned_fmt_to_owned() {
    let debug = ValueBag::capture_owned_debug("a value".to_string()).to_owned();
    let display = ValueBag::capture_owned_display("a value".to_string()).to_owned();

    assert_eq!("\"a value\"", debug.to_string().unwrap());
    assert_eq!("a value", display.to_string().unwrap());
}

#[test]
fn owned_display_round_trip() {
    let x = 1234.5678f64;
    let original = ValueBag::from_display(&x);
    let round_trip = original.to_owned();
    assert_eq!(original.to_string().unwrap(), round_trip.by_ref().to_string().unwrap());
    assert_eq!("1234.5678", round_trip.by_ref().to_string().unwrap());

    let err = io::Error::new(io::ErrorKind::Other, "something failed!");
    let captured = ValueBag::capture_error(&err);
    assert!(captured.is::<io::Error>());
    let owned = captured.to_owned();
    assert_eq!("something failed!", owned.to_string().unwrap());
    assert!(!owned.by_ref().is::<io::Error>());
}

#[test]
fn primitive_text() {
    assert_eq!("42", ValueBag::from(42u8).to_string().unwrap());
    assert_eq!("-42", ValueBag::from(-42i64).to_string().unwrap());
    assert_eq!("340282366920938463463374607431768211455", ValueBag::from(u128::MAX).to_string().unwrap());
    assert_eq!("true", ValueBag::from(true).to_string().unwrap());
    assert_eq!("c", ValueBag::from('c').to_string().unwrap());
    assert_eq!("-170141183460469231731687303715884105728", ValueBag::from(i128::MIN).to_string().unwrap());
    assert_eq!("0", ValueBag::from(0u8).to_string().unwrap());
    assert_eq!("1000", ValueBag::from(1000u16).to_string().unwrap());
    assert_eq!("None", ValueBag::from(()).to_string().unwrap());
    assert_eq!("text", ValueBag::from("text").to_string().unwrap());
    assert_eq!("[1, 2, 3]", ValueBag::from(&[1u8, 2, 3]).to_string().unwrap());
    assert_eq!("[]", ValueBag::from(&[0u8; 0]).to_string().unwrap());
    let inner = [1u8];
    let items = [ValueBag::from(&inner), ValueBag::from("x")];
    assert_eq!("[[..], x]", ValueBag::from_seq_slice(&items).to_string().unwrap());
}

#[test]
fn error_text() {
    let err = value_bag::Error::msg("maps are not supported");
    assert_eq!("maps are not supported", err.to_string());
    let err = value_bag::Error::boxed(String::from("failed to buffer the value"));
    assert_eq!("failed to buffer the value", err.to_string());
}
