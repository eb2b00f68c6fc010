use value_bag::visit::{Dispatch, Visit};
use value_bag::{Error, ValueBag};

#[derive(Debug, PartialEq)]
enum Token {
    U64(u64),
    I64(i64),
    U128(u128),
    I128(i128),
    F64(f64),
    Bool(bool),
    Str(String),
    BorrowedStr(String),
    Char(char),
    Absent,
    Any(String),
}

#[derive(Default)]
struct Recorder(Vec<Token>);

impl<'v> Visit<'v> for Recorder {
    fn visit_any(&mut self, value: ValueBag) -> Result<(), Error> {
        self.0.push(Token::Any(value.to_string().unwrap()));
        Ok(())
    }

    fn visit_u64(&mut self, value: u64) -> Result<(), Error> {
        self.0.push(Token::U64(value));
        Ok(())
    }

    fn visit_i64(&mut self, value: i64) -> Result<(), Error> {
        self.0.push(Token::I64(value));
        Ok(())
    }

    fn visit_u128(&mut self, value: u128) -> Result<(), Error> {
        self.0.push(Token::U128(value));
        Ok(())
    }

    fn visit_i128(&mut self, value: i128) -> Result<(), Error> {
        self.0.push(Token::I128(value));
        Ok(())
    }

    fn visit_f64_bits(&mut self, bits: u64) -> Result<(), Error> {
        self.0.push(Token::F64(f64::from_bits(bits)));
        Ok(())
    }

    fn visit_bool(&mut self, value: bool) -> Result<(), Error> {
        self.0.push(Token::Bool(value));
        Ok(())
    }

    fn visit_str(&mut self, value: &str) -> Result<(), Error> {
        self.0.push(Token::Str(value.to_owned()));
        Ok(())
    }

    fn visit_borrowed_str(&mut self, value: &'v str) -> Result<(), Error> {
        self.0.push(Token::BorrowedStr(value.to_owned()));
        Ok(())
    }

    fn visit_char(&mut self, value: char) -> Result<(), Error> {
        self.0.push(Token::Char(value));
        Ok(())
    }

    fn visit_none(&mut self) -> Result<(), Error> {
        self.0.push(Token::Absent);
        Ok(())
    }
}

struct AnyOnly(Vec<String>);

impl<'v> Visit<'v> for AnyOnly {
    fn visit_any(&mut self, value: ValueBag) -> Result<(), Error> {
        self.0.push(value.to_string().unwrap());
        Ok(())
    }
}

#[test]
fn visit_structured() {
    let mut rec = Recorder::default();
    ValueBag::from(42u64).visit(&mut rec).expect("failed to visit value");
    ValueBag::from(-42i64).visit(&mut rec).expect("failed to visit value");
    ValueBag::from_f64_bits(11f64.to_bits()).visit(&mut rec).expect("failed to visit value");
    ValueBag::from(true).visit(&mut rec).expect("failed to visit value");
    ValueBag::from("some string").visit(&mut rec).expect("failed to visit value");
    ValueBag::from('n').visit(&mut rec).expect("failed to visit value");
    ValueBag::from(42u128).visit(&mut rec).expect("failed to visit value");
    ValueBag::from(-42i128).visit(&mut rec).expect("failed to visit value");
    ValueBag::from(()).visit(&mut rec).expect("failed to visit value");
    ValueBag::from(&[1u8, 2]).visit(&mut rec).expect("failed to visit value");
    assert_eq!(
        vec![
            Token::U64(42),
            Token::I64(-42),
            Token::F64(11.0),
            Token::Bool(true),
            Token::BorrowedStr("some string".to_owned()),
            Token::Char('n'),
            Token::U128(42),
            Token::I128(-42),
            Token::Absent,
            Token::Any("[1, 2]".to_owned()),
        ],
        rec.0
    );
}

#[test]
fn visit_defaults_fall_back_to_any() {
    let mut v = AnyOnly(Vec::new());
    ValueBag::from(7u8).visit(&mut v).expect("failed to visit value");
    ValueBag::from("s").visit(&mut v).expect("failed to visit value");
    ValueBag::from(()).visit(&mut v).expect("failed to visit value");
    ValueBag::from_debug(&"dbg").visit(&mut v).expect("failed to visit value");
    assert_eq!(vec!["7", "s", "None", "\"dbg\""], v.0);
}

#[test]
fn error_visit() {
    let err = std::io::Error::from(std::io::ErrorKind::Other);

    let mut v = AnyOnly(Vec::new());
    ValueBag::capture_error(&err).visit(&mut v).expect("failed to visit value");
    assert_eq!(vec![err.to_string()], v.0);
}

#[test]
fn dispatch_names_the_method() {
    assert!(matches!(ValueBag::from(42u8).dispatch(), Dispatch::U64(42)));
    assert!(matches!(ValueBag::from(-1i16).dispatch(), Dispatch::I64(-1)));
    assert!(matches!(ValueBag::from(7u128).dispatch(), Dispatch::U128(7)));
    assert!(matches!(ValueBag::from(-7i128).dispatch(), Dispatch::I128(-7)));
    assert!(matches!(ValueBag::from(true).dispatch(), Dispatch::Bool(true)));
    assert!(matches!(ValueBag::from('q').dispatch(), Dispatch::Char('q')));
    assert!(matches!(ValueBag::from("s").dispatch(), Dispatch::BorrowedStr("s")));
    assert!(matches!(ValueBag::from(()).dispatch(), Dispatch::Absent));
    assert!(matches!(ValueBag::from(&[1u8]).dispatch(), Dispatch::Any(_)));
}

struct Failing;

impl<'v> Visit<'v> for Failing {
    fn visit_any(&mut self, _: ValueBag) -> Result<(), Error> {
        Err(Error::msg("refused"))
    }
}

#[test]
fn visit_returns_the_visitor_result() {
    let err = ValueBag::from(1u8).visit(Failing).unwrap_err();
    assert_eq!("refused", err.to_string());
}
