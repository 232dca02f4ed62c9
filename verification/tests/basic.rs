use std::cell::Cell;

use extractors::{call, Extract, Provide};

#[derive(Debug, PartialEq, Eq, Clone, Copy)]
enum FieldError {
    Missing,
}

/// Supplies `i32` values keyed by position from a fixed source list; an
/// optional failure position makes that extraction fail with `Missing`.
struct ListProvider {
    items: Vec<i32>,
    pos: Cell<usize>,
    fail_at: Option<usize>,
}

impl ListProvider {
    fn new(items: Vec<i32>) -> Self {
        ListProvider { items, pos: Cell::new(0), fail_at: None }
    }

    fn failing_at(items: Vec<i32>, fail_at: usize) -> Self {
        ListProvider { items, pos: Cell::new(0), fail_at: Some(fail_at) }
    }
}

impl Provide<i32, FieldError> for ListProvider {
    // Only the ghost specification of `provide`; never run.
    fn provide_spec(&self) -> Result<i32, FieldError> {
        unreachable!()
    }

    fn provide(&self) -> Result<i32, FieldError> {
        let i: usize = self.pos.get();
        self.pos.set(i + 1);
        if self.fail_at == Some(i) {
            return Err(FieldError::Missing);
        }
        Ok(self.items[i])
    }
}

#[test]
fn sum_of_two_supplied_fields() {
    let p = ListProvider::new(vec![3, 4]);
    let f = |a: i32, b: i32| -> i32 { a + b };
    assert_eq!(call(&p, f), Ok(7));
}

#[test]
fn sum_of_three_supplied_fields() {
    let p = ListProvider::new(vec![10, 20, 30]);
    let f = |a: i32, b: i32, c: i32| -> i32 { a + b + c };
    assert_eq!(call(&p, f), Ok(60));
}

#[test]
fn failing_field_short_circuits_call() {
    let p = ListProvider::failing_at(vec![10, 20, 30], 1);
    let f = |a: i32, b: i32, c: i32| -> i32 { a + b + c };
    assert_eq!(call(&p, f), Err(FieldError::Missing));
}

#[test]
fn callable_never_invoked_on_failure() {
    let invocations: Cell<u32> = Cell::new(0);
    let p = ListProvider::failing_at(vec![10, 20, 30], 1);
    let f = |a: i32, b: i32, c: i32| -> i32 {
        invocations.set(invocations.get() + 1);
        a + b + c
    };
    assert_eq!(call(&p, f), Err(FieldError::Missing));
    assert_eq!(invocations.get(), 0);
}

#[derive(Debug, PartialEq, Eq, Clone, Copy)]
enum DomainError {
    Negative,
}

fn add3(a: i32, b: i32, c: i32) -> i32 {
    a + b + c
}

#[test]
fn named_function_as_callable() {
    let p = ListProvider::new(vec![10, 20, 30]);
    assert_eq!(call(&p, add3), Ok(60));
}

#[test]
fn callable_result_passes_through_verbatim() {
    let p = ListProvider::new(vec![-5]);
    let f = |a: i32| -> Result<i32, DomainError> {
        if a < 0 {
            Err(DomainError::Negative)
        } else {
            Ok(a)
        }
    };
    // The callable's own domain error is part of a successful invocation:
    // it is returned inside `Ok`, untouched by the extraction layer.
    assert_eq!(call(&p, f), Ok(Err(DomainError::Negative)));
}

#[test]
fn optional_parameter_absorbs_failure_in_call() {
    let p = ListProvider::failing_at(vec![7, 9], 1);
    let f = |a: i32, b: Option<i32>| -> i32 { a + b.unwrap_or(0) };
    assert_eq!(call(&p, f), Ok(7));
}

#[test]
fn optional_parameter_wraps_success_in_call() {
    let p = ListProvider::new(vec![7, 9]);
    let f = |a: i32, b: Option<i32>| -> i32 { a + b.unwrap_or(0) };
    assert_eq!(call(&p, f), Ok(16));
}

#[test]
fn optional_extraction_absorbs_failure() {
    let p = ListProvider::failing_at(vec![10], 0);
    let r: Result<Option<i32>, FieldError> = p.extract();
    assert_eq!(r, Ok(None));
}

#[test]
fn optional_extraction_wraps_success() {
    let p = ListProvider::new(vec![10]);
    let r: Result<Option<i32>, FieldError> = p.extract();
    assert_eq!(r, Ok(Some(10)));
}
