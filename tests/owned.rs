use std::io;
use std::mem;

use value_bag::{OwnedValueBag, ValueBag};

const SIZE_LIMIT_U64: usize = 4;

#[test]
fn is_send_sync() {
    fn assert<T: Send + Sync + 'static>() {}

    assert::<OwnedValueBag>();
}

#[test]
fn owned_value_bag_size() {
    let size = mem::size_of::<OwnedValueBag>();
    let limit = mem::size_of::<u64>() * SIZE_LIMIT_U64;

    if size > limit {
        panic!(
            "`OwnedValueBag` size ({} bytes) is too large (expected up to {} bytes)",
            size, limit,
        );
    }
}

#[test]
fn owned_round_trip_loses_identity() {
    let s = String::from("shown");
    let captured = ValueBag::capture_display(&s);
    assert!(captured.is::<String>());
    let owned = captured.to_owned();
    assert!(!owned.by_ref().is::<String>());
}

#[test]
fn owned_keeps_primitives() {
    let owned = ValueBag::from(42u64).to_owned();
    assert_eq!(Some(42), owned.by_ref().to_u64());
    let owned = ValueBag::from("a value").to_owned();
    assert_eq!(Some("a value"), owned.by_ref().to_borrowed_str());
    let owned = ValueBag::from(&[1i8, -1]).to_owned();
    assert_eq!(Some(vec![Some(1), Some(-1)]), owned.by_ref().to_i64_seq());
    assert_eq!(Some(vec![Some(1), None]), owned.by_ref().to_u64_seq());
}

#[test]
fn owned_outlives_source() {
    let owned = {
        let s = String::from("short lived");
        ValueBag::from(s.as_str()).to_owned()
    };
    assert_eq!(Some("short lived"), owned.by_ref().to_borrowed_str());
    let copy = owned.clone();
    assert_eq!(Some("short lived"), copy.by_ref().to_borrowed_str());
}

#[test]
fn owned_nested_sequence_becomes_absent() {
    let inner = [1u8];
    let items = [ValueBag::from(&inner), ValueBag::from(2u8)];
    let owned = ValueBag::from_seq_slice(&items).to_owned();
    assert_eq!(Some(vec![None, Some(2)]), owned.by_ref().to_u64_seq());
}

#[test]
fn error_to_owned() {
    let err = io::Error::new(io::ErrorKind::Other, "something failed!");
    let value = ValueBag::capture_error(&err).to_owned();

    let value = value.by_ref();

    assert!(value.to_borrowed_error().is_some());
    assert_eq!(
        "something failed!",
        value.to_borrowed_error().unwrap().to_string()
    );
    assert_eq!(None, value.to_u64());
    assert!(!value.is::<io::Error>());
}

#[test]
fn owned_error_to_owned() {
    let value =
        ValueBag::capture_owned_error(io::Error::new(io::ErrorKind::Other, "something failed!"))
            .to_owned();

    let value = value.by_ref();

    assert!(value.to_borrowed_error().is_some());
    assert_eq!(
        "something failed!",
        value.to_borrowed_error().unwrap().to_string()
    );
}

#[test]
fn failing_format_becomes_error() {
    struct Broken;

    impl std::fmt::Debug for Broken {
        fn fmt(&self, _: &mut std::fmt::Formatter<'_>) -> std::fmt::Result {
            Err(std::fmt::Error)
        }
    }

    let broken = Broken;
    let bag = ValueBag::from_debug(&broken);
    assert_eq!("failed to format the value", bag.to_string().unwrap_err().to_string());
    let owned = bag.to_owned();
    assert!(owned.by_ref().to_borrowed_error().is_some());
    assert_eq!("failed to format the value", owned.to_string().unwrap());
}

#[test]
fn capture_owned_prefers_primitive() {
    assert_eq!(Some(7), ValueBag::capture_owned_debug(7u32).by_ref().to_u64());
    assert_eq!(None, ValueBag::capture_owned_display(String::from("7")).by_ref().to_u64());
}
