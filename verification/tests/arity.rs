use std::cell::Cell;

use extractors::{call, Provide};

#[derive(Debug, PartialEq, Eq, Clone, Copy)]
enum FieldError {
    Missing,
}

/// Supplies consecutive `i32` values 1, 2, 3, ... by extraction order.
struct CountingProvider {
    next: Cell<i32>,
}

impl CountingProvider {
    fn new() -> Self {
        CountingProvider { next: Cell::new(1) }
    }
}

impl Provide<i32, FieldError> for CountingProvider {
    // Only the ghost specification of `provide`; never run.
    fn provide_spec(&self) -> Result<i32, FieldError> {
        unreachable!()
    }

    fn provide(&self) -> Result<i32, FieldError> {
        let v: i32 = self.next.get();
        self.next.set(v + 1);
        Ok(v)
    }
}


#[test]
fn arity_1_round_trip() {
    let p = CountingProvider::new();
    let f = |x1: i32| -> i32 { x1 };
    assert_eq!(call(&p, f), Ok(1));
}

#[test]
fn arity_2_round_trip() {
    let p = CountingProvider::new();
    let f = |x1: i32, x2: i32| -> i32 { x1 + x2 };
    assert_eq!(call(&p, f), Ok(3));
}

#[test]
fn arity_3_round_trip() {
    let p = CountingProvider::new();
    let f = |x1: i32, x2: i32, x3: i32| -> i32 { x1 + x2 + x3 };
    assert_eq!(call(&p, f), Ok(6));
}

#[test]
fn arity_4_round_trip() {
    let p = CountingProvider::new();
    let f = |x1: i32, x2: i32, x3: i32, x4: i32| -> i32 { x1 + x2 + x3 + x4 };
    assert_eq!(call(&p, f), Ok(10));
}

#[test]
fn arity_5_round_trip() {
    let p = CountingProvider::new();
    let f = |x1: i32, x2: i32, x3: i32, x4: i32, x5: i32| -> i32 { x1 + x2 + x3 + x4 + x5 };
    assert_eq!(call(&p, f), Ok(15));
}

#[test]
fn arity_6_round_trip() {
    let p = CountingProvider::new();
    let f = |x1: i32, x2: i32, x3: i32, x4: i32, x5: i32, x6: i32| -> i32 { x1 + x2 + x3 + x4 + x5 + x6 };
    assert_eq!(call(&p, f), Ok(21));
}

#[test]
fn arity_7_round_trip() {
    let p = CountingProvider::new();
    let f = |x1: i32, x2: i32, x3: i32, x4: i32, x5: i32, x6: i32, x7: i32| -> i32 { x1 + x2 + x3 + x4 + x5 + x6 + x7 };
    assert_eq!(call(&p, f), Ok(28));
}

#[test]
fn arity_8_round_trip() {
    let p = CountingProvider::new();
    let f = |x1: i32, x2: i32, x3: i32, x4: i32, x5: i32, x6: i32, x7: i32, x8: i32| -> i32 { x1 + x2 + x3 + x4 + x5 + x6 + x7 + x8 };
    assert_eq!(call(&p, f), Ok(36));
}

#[test]
fn arity_9_round_trip() {
    let p = CountingProvider::new();
    let f = |x1: i32, x2: i32, x3: i32, x4: i32, x5: i32, x6: i32, x7: i32, x8: i32, x9: i32| -> i32 { x1 + x2 + x3 + x4 + x5 + x6 + x7 + x8 + x9 };
    assert_eq!(call(&p, f), Ok(45));
}

#[test]
fn arity_10_round_trip() {
    let p = CountingProvider::new();
    let f = |x1: i32, x2: i32, x3: i32, x4: i32, x5: i32, x6: i32, x7: i32, x8: i32, x9: i32, x10: i32| -> i32 { x1 + x2 + x3 + x4 + x5 + x6 + x7 + x8 + x9 + x10 };
    assert_eq!(call(&p, f), Ok(55));
}

#[test]
fn arity_11_round_trip() {
    let p = CountingProvider::new();
    let f = |x1: i32, x2: i32, x3: i32, x4: i32, x5: i32, x6: i32, x7: i32, x8: i32, x9: i32, x10: i32, x11: i32| -> i32 { x1 + x2 + x3 + x4 + x5 + x6 + x7 + x8 + x9 + x10 + x11 };
    assert_eq!(call(&p, f), Ok(66));
}

#[test]
fn arity_12_round_trip() {
    let p = CountingProvider::new();
    let f = |x1: i32, x2: i32, x3: i32, x4: i32, x5: i32, x6: i32, x7: i32, x8: i32, x9: i32, x10: i32, x11: i32, x12: i32| -> i32 { x1 + x2 + x3 + x4 + x5 + x6 + x7 + x8 + x9 + x10 + x11 + x12 };
    assert_eq!(call(&p, f), Ok(78));
}

#[test]
fn arity_13_round_trip() {
    let p = CountingProvider::new();
    let f = |x1: i32, x2: i32, x3: i32, x4: i32, x5: i32, x6: i32, x7: i32, x8: i32, x9: i32, x10: i32, x11: i32, x12: i32, x13: i32| -> i32 { x1 + x2 + x3 + x4 + x5 + x6 + x7 + x8 + x9 + x10 + x11 + x12 + x13 };
    assert_eq!(call(&p, f), Ok(91));
}

#[test]
fn arity_14_round_trip() {
    let p = CountingProvider::new();
    let f = |x1: i32, x2: i32, x3: i32, x4: i32, x5: i32, x6: i32, x7: i32, x8: i32, x9: i32, x10: i32, x11: i32, x12: i32, x13: i32, x14: i32| -> i32 { x1 + x2 + x3 + x4 + x5 + x6 + x7 + x8 + x9 + x10 + x11 + x12 + x13 + x14 };
    assert_eq!(call(&p, f), Ok(105));
}

#[test]
fn arity_15_round_trip() {
    let p = CountingProvider::new();
    let f = |x1: i32, x2: i32, x3: i32, x4: i32, x5: i32, x6: i32, x7: i32, x8: i32, x9: i32, x10: i32, x11: i32, x12: i32, x13: i32, x14: i32, x15: i32| -> i32 { x1 + x2 + x3 + x4 + x5 + x6 + x7 + x8 + x9 + x10 + x11 + x12 + x13 + x14 + x15 };
    assert_eq!(call(&p, f), Ok(120));
}

#[test]
fn arity_16_round_trip() {
    let p = CountingProvider::new();
    let f = |x1: i32, x2: i32, x3: i32, x4: i32, x5: i32, x6: i32, x7: i32, x8: i32, x9: i32, x10: i32, x11: i32, x12: i32, x13: i32, x14: i32, x15: i32, x16: i32| -> i32 { x1 + x2 + x3 + x4 + x5 + x6 + x7 + x8 + x9 + x10 + x11 + x12 + x13 + x14 + x15 + x16 };
    assert_eq!(call(&p, f), Ok(136));
}

#[test]
fn arity_17_round_trip() {
    let p = CountingProvider::new();
    let f = |x1: i32, x2: i32, x3: i32, x4: i32, x5: i32, x6: i32, x7: i32, x8: i32, x9: i32, x10: i32, x11: i32, x12: i32, x13: i32, x14: i32, x15: i32, x16: i32, x17: i32| -> i32 { x1 + x2 + x3 + x4 + x5 + x6 + x7 + x8 + x9 + x10 + x11 + x12 + x13 + x14 + x15 + x16 + x17 };
    assert_eq!(call(&p, f), Ok(153));
}

#[test]
fn arity_18_round_trip() {
    let p = CountingProvider::new();
    let f = |x1: i32, x2: i32, x3: i32, x4: i32, x5: i32, x6: i32, x7: i32, x8: i32, x9: i32, x10: i32, x11: i32, x12: i32, x13: i32, x14: i32, x15: i32, x16: i32, x17: i32, x18: i32| -> i32 { x1 + x2 + x3 + x4 + x5 + x6 + x7 + x8 + x9 + x10 + x11 + x12 + x13 + x14 + x15 + x16 + x17 + x18 };
    assert_eq!(call(&p, f), Ok(171));
}

#[test]
fn arity_19_round_trip() {
    let p = CountingProvider::new();
    let f = |x1: i32, x2: i32, x3: i32, x4: i32, x5: i32, x6: i32, x7: i32, x8: i32, x9: i32, x10: i32, x11: i32, x12: i32, x13: i32, x14: i32, x15: i32, x16: i32, x17: i32, x18: i32, x19: i32| -> i32 { x1 + x2 + x3 + x4 + x5 + x6 + x7 + x8 + x9 + x10 + x11 + x12 + x13 + x14 + x15 + x16 + x17 + x18 + x19 };
    assert_eq!(call(&p, f), Ok(190));
}

#[test]
fn arity_20_round_trip() {
    let p = CountingProvider::new();
    let f = |x1: i32, x2: i32, x3: i32, x4: i32, x5: i32, x6: i32, x7: i32, x8: i32, x9: i32, x10: i32, x11: i32, x12: i32, x13: i32, x14: i32, x15: i32, x16: i32, x17: i32, x18: i32, x19: i32, x20: i32| -> i32 { x1 + x2 + x3 + x4 + x5 + x6 + x7 + x8 + x9 + x10 + x11 + x12 + x13 + x14 + x15 + x16 + x17 + x18 + x19 + x20 };
    assert_eq!(call(&p, f), Ok(210));
}

#[test]
fn arity_21_round_trip() {
    let p = CountingProvider::new();
    let f = |x1: i32, x2: i32, x3: i32, x4: i32, x5: i32, x6: i32, x7: i32, x8: i32, x9: i32, x10: i32, x11: i32, x12: i32, x13: i32, x14: i32, x15: i32, x16: i32, x17: i32, x18: i32, x19: i32, x20: i32, x21: i32| -> i32 { x1 + x2 + x3 + x4 + x5 + x6 + x7 + x8 + x9 + x10 + x11 + x12 + x13 + x14 + x15 + x16 + x17 + x18 + x19 + x20 + x21 };
    assert_eq!(call(&p, f), Ok(231));
}

#[test]
fn arity_22_round_trip() {
    let p = CountingProvider::new();
    let f = |x1: i32, x2: i32, x3: i32, x4: i32, x5: i32, x6: i32, x7: i32, x8: i32, x9: i32, x10: i32, x11: i32, x12: i32, x13: i32, x14: i32, x15: i32, x16: i32, x17: i32, x18: i32, x19: i32, x20: i32, x21: i32, x22: i32| -> i32 { x1 + x2 + x3 + x4 + x5 + x6 + x7 + x8 + x9 + x10 + x11 + x12 + x13 + x14 + x15 + x16 + x17 + x18 + x19 + x20 + x21 + x22 };
    assert_eq!(call(&p, f), Ok(253));
}

#[test]
fn arity_23_round_trip() {
    let p = CountingProvider::new();
    let f = |x1: i32, x2: i32, x3: i32, x4: i32, x5: i32, x6: i32, x7: i32, x8: i32, x9: i32, x10: i32, x11: i32, x12: i32, x13: i32, x14: i32, x15: i32, x16: i32, x17: i32, x18: i32, x19: i32, x20: i32, x21: i32, x22: i32, x23: i32| -> i32 { x1 + x2 + x3 + x4 + x5 + x6 + x7 + x8 + x9 + x10 + x11 + x12 + x13 + x14 + x15 + x16 + x17 + x18 + x19 + x20 + x21 + x22 + x23 };
    assert_eq!(call(&p, f), Ok(276));
}

#[test]
fn arity_24_round_trip() {
    let p = CountingProvider::new();
    let f = |x1: i32, x2: i32, x3: i32, x4: i32, x5: i32, x6: i32, x7: i32, x8: i32, x9: i32, x10: i32, x11: i32, x12: i32, x13: i32, x14: i32, x15: i32, x16: i32, x17: i32, x18: i32, x19: i32, x20: i32, x21: i32, x22: i32, x23: i32, x24: i32| -> i32 { x1 + x2 + x3 + x4 + x5 + x6 + x7 + x8 + x9 + x10 + x11 + x12 + x13 + x14 + x15 + x16 + x17 + x18 + x19 + x20 + x21 + x22 + x23 + x24 };
    assert_eq!(call(&p, f), Ok(300));
}

#[test]
fn arity_25_round_trip() {
    let p = CountingProvider::new();
    let f = |x1: i32, x2: i32, x3: i32, x4: i32, x5: i32, x6: i32, x7: i32, x8: i32, x9: i32, x10: i32, x11: i32, x12: i32, x13: i32, x14: i32, x15: i32, x16: i32, x17: i32, x18: i32, x19: i32, x20: i32, x21: i32, x22: i32, x23: i32, x24: i32, x25: i32| -> i32 { x1 + x2 + x3 + x4 + x5 + x6 + x7 + x8 + x9 + x10 + x11 + x12 + x13 + x14 + x15 + x16 + x17 + x18 + x19 + x20 + x21 + x22 + x23 + x24 + x25 };
    assert_eq!(call(&p, f), Ok(325));
}

#[test]
fn arity_26_round_trip() {
    let p = CountingProvider::new();
    let f = |x1: i32, x2: i32, x3: i32, x4: i32, x5: i32, x6: i32, x7: i32, x8: i32, x9: i32, x10: i32, x11: i32, x12: i32, x13: i32, x14: i32, x15: i32, x16: i32, x17: i32, x18: i32, x19: i32, x20: i32, x21: i32, x22: i32, x23: i32, x24: i32, x25: i32, x26: i32| -> i32 { x1 + x2 + x3 + x4 + x5 + x6 + x7 + x8 + x9 + x10 + x11 + x12 + x13 + x14 + x15 + x16 + x17 + x18 + x19 + x20 + x21 + x22 + x23 + x24 + x25 + x26 };
    assert_eq!(call(&p, f), Ok(351));
}
