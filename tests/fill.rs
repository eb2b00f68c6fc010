use std::io;

use value_bag::fill::{Fill, Slot};
use value_bag::{Error, ValueBag};

struct FillU64(u64);

impl Fill for FillU64 {
    fn fill(&self, slot: &mut Slot) -> Result<(), Error> {
        slot.fill_any(ValueBag::from(self.0))
    }
}

struct FillNothing;

impl Fill for FillNothing {
    fn fill(&self, _: &mut Slot) -> Result<(), Error> {
        Ok(())
    }
}

struct FillShortLived;

impl Fill for FillShortLived {
    fn fill(&self, slot: &mut Slot) -> Result<(), Error> {
        let text = format!("{}-{}", "short", "lived");
        slot.fill_any(ValueBag::from(text.as_str()))
    }
}

struct FillError;

impl Fill for FillError {
    fn fill(&self, slot: &mut Slot) -> Result<(), Error> {
        slot.fill_error(io::Error::new(io::ErrorKind::Other, "something failed!"))
    }
}

struct FillSeq;

impl Fill for FillSeq {
    fn fill(&self, slot: &mut Slot) -> Result<(), Error> {
        let items = vec![1u32, 2, 3];
        slot.fill_seq_slice(&items)
    }
}

struct FillDebug;

impl Fill for FillDebug {
    fn fill(&self, slot: &mut Slot) -> Result<(), Error> {
        #[derive(Debug)]
        struct MyShortLivedValue;

        slot.fill_debug(MyShortLivedValue)
    }
}

#[test]
fn owned_fill_to_owned() {
    let value = ValueBag::capture_owned_fill(FillU64(42)).to_owned();

    assert_eq!(Some(42), value.by_ref().to_u64());
}

#[test]
fn fill_nothing_is_absent() {
    let value = ValueBag::capture_owned_fill(FillNothing);
    assert_eq!("None", value.to_string().unwrap());
    assert_eq!(None, value.by_ref().to_u64());
}

#[test]
fn fill_short_lived_string_is_owned() {
    let value = ValueBag::capture_owned_fill(FillShortLived);
    assert_eq!(Some("short-lived"), value.by_ref().to_borrowed_str());
}

#[test]
fn fill_error_and_seq() {
    let value = ValueBag::capture_owned_fill(FillError);
    assert_eq!("something failed!", value.to_string().unwrap());
    let value = ValueBag::capture_owned_fill(FillSeq);
    assert_eq!(Some(vec![Some(1), Some(2), Some(3)]), value.by_ref().to_u64_seq());
    let value = ValueBag::capture_owned_fill(FillDebug);
    assert_eq!("MyShortLivedValue", value.to_string().unwrap());
}

#[test]
fn fill_to_owned() {
    let value = ValueBag::capture_owned_fill(FillU64(42));
    let round_trip = value.by_ref().to_owned();
    assert_eq!(Some(42), round_trip.by_ref().to_u64());
}
