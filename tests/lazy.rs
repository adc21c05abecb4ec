use std::cell::Cell;
use svf_filter::lazy::Lazy;

#[derive(Clone, Copy, Debug, PartialEq)]
struct Params {
    frequency: f32,
    quality: f32,
}

#[test]
fn new_holds_key_and_value() {
    let l: Lazy<u32, u64> = Lazy::new(3, 9);
    assert_eq!(l.key(), 3);
    assert_eq!(l.value(), 9);
}

#[test]
fn equal_set_twice_derives_once() {
    let calls = Cell::new(0u32);
    let derive = |p: Params| -> Result<f32, ()> {
        calls.set(calls.get() + 1);
        Ok(p.frequency * 2.0)
    };
    let start = Params { frequency: 440.0, quality: 0.71 };
    let mut l = Lazy::new(start, 880.0f32);
    let next = Params { frequency: 1000.0, quality: 0.71 };
    assert_eq!(l.set(next, &derive), Ok(true));
    assert_eq!(l.set(next, &derive), Ok(false));
    assert_eq!(calls.get(), 1);
    assert_eq!(l.key(), next);
    assert_eq!(l.value(), 2000.0);
}

#[test]
fn equal_key_derives_nothing() {
    let calls = Cell::new(0u32);
    let derive = |k: u32| -> Result<u32, ()> {
        calls.set(calls.get() + 1);
        Ok(k + 1)
    };
    let mut l = Lazy::new(5u32, 6u32);
    assert_eq!(l.set(5, &derive), Ok(false));
    assert_eq!(calls.get(), 0);
    assert_eq!(l.value(), 6);
}

#[test]
fn failed_derivation_keeps_key_and_value() {
    let derive = |k: i32| -> Result<i32, &'static str> {
        if k < 0 {
            Err("negative")
        } else {
            Ok(k * 10)
        }
    };
    let mut l = Lazy::new(1i32, 10i32);
    assert_eq!(l.set(-4, &derive), Err("negative"));
    assert_eq!(l.key(), 1);
    assert_eq!(l.value(), 10);
    assert_eq!(l.set(4, &derive), Ok(true));
    assert_eq!(l.key(), 4);
    assert_eq!(l.value(), 40);
}
