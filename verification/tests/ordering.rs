use std::cell::RefCell;

use extractors::{call, Provide};

#[derive(Debug, PartialEq, Eq, Clone, Copy)]
enum FieldError {
    Missing,
}

/// A provider whose fields have observable extraction order: every
/// extraction appends its field's type name to a shared log before it
/// resolves, and a chosen field can be made to fail.
struct LogProvider {
    log: RefCell<Vec<&'static str>>,
    fail_on: Option<&'static str>,
}

impl LogProvider {
    fn new() -> Self {
        LogProvider { log: RefCell::new(Vec::new()), fail_on: None }
    }

    fn failing_on(name: &'static str) -> Self {
        LogProvider { log: RefCell::new(Vec::new()), fail_on: Some(name) }
    }

    fn record(&self, name: &'static str) -> Result<(), FieldError> {
        self.log.borrow_mut().push(name);
        if self.fail_on == Some(name) {
            Err(FieldError::Missing)
        } else {
            Ok(())
        }
    }
}

impl Provide<u8, FieldError> for LogProvider {
    // Only the ghost specification of `provide`; never run.
    fn provide_spec(&self) -> Result<u8, FieldError> {
        unreachable!()
    }

    fn provide(&self) -> Result<u8, FieldError> {
        self.record("u8").map(|_| 1u8)
    }
}

impl Provide<u16, FieldError> for LogProvider {
    // Only the ghost specification of `provide`; never run.
    fn provide_spec(&self) -> Result<u16, FieldError> {
        unreachable!()
    }

    fn provide(&self) -> Result<u16, FieldError> {
        self.record("u16").map(|_| 2u16)
    }
}

impl Provide<u32, FieldError> for LogProvider {
    // Only the ghost specification of `provide`; never run.
    fn provide_spec(&self) -> Result<u32, FieldError> {
        unreachable!()
    }

    fn provide(&self) -> Result<u32, FieldError> {
        self.record("u32").map(|_| 3u32)
    }
}

impl Provide<u64, FieldError> for LogProvider {
    // Only the ghost specification of `provide`; never run.
    fn provide_spec(&self) -> Result<u64, FieldError> {
        unreachable!()
    }

    fn provide(&self) -> Result<u64, FieldError> {
        self.record("u64").map(|_| 4u64)
    }
}

#[test]
fn fields_extracted_in_declared_order() {
    let p = LogProvider::new();
    let f = |a: u8, b: u16, c: u32, d: u64| -> u64 { a as u64 + b as u64 + c as u64 + d };
    assert_eq!(call(&p, f), Ok(10));
    assert_eq!(*p.log.borrow(), vec!["u8", "u16", "u32", "u64"]);
}

#[test]
fn extraction_stops_at_first_failing_field() {
    let p = LogProvider::failing_on("u32");
    let f = |a: u8, b: u16, c: u32, d: u64| -> u64 { a as u64 + b as u64 + c as u64 + d };
    assert_eq!(call(&p, f), Err(FieldError::Missing));
    // Two successful extractions, then the failing attempt; the last field
    // is never attempted.
    assert_eq!(*p.log.borrow(), vec!["u8", "u16", "u32"]);
}

#[test]
fn failure_of_last_field_follows_all_successes() {
    let p = LogProvider::failing_on("u64");
    let f = |a: u8, b: u16, c: u32, d: u64| -> u64 { a as u64 + b as u64 + c as u64 + d };
    assert_eq!(call(&p, f), Err(FieldError::Missing));
    assert_eq!(*p.log.borrow(), vec!["u8", "u16", "u32", "u64"]);
}

#[test]
fn failure_of_first_field_attempts_nothing_else() {
    let p = LogProvider::failing_on("u8");
    let f = |a: u8, b: u16| -> u16 { a as u16 + b };
    assert_eq!(call(&p, f), Err(FieldError::Missing));
    assert_eq!(*p.log.borrow(), vec!["u8"]);
}
