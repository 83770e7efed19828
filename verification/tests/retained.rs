use std::sync::atomic::{AtomicUsize, Ordering};
use std::sync::Arc;

use tacd::RetainedValue;

#[test]
fn native_hands_out_the_same_allocation() {
    let value = Arc::new("payload".to_string());
    let held = RetainedValue::new(value.clone());
    assert!(Arc::ptr_eq(&held.native(), &value));
    assert!(Arc::ptr_eq(&held.native(), &held.native()));
    assert_eq!(Arc::strong_count(&value), 2);
}

#[test]
fn serialized_encodes_once_and_keeps_the_bytes() {
    let calls = AtomicUsize::new(0);
    let encode = |value: &u16| {
        calls.fetch_add(1, Ordering::SeqCst);
        value.to_be_bytes().to_vec()
    };
    let mut held = RetainedValue::new(Arc::new(0x1234u16));
    assert_eq!(calls.load(Ordering::SeqCst), 0);
    let first = held.serialized(&encode);
    assert_eq!(&*first, &[0x12, 0x34]);
    assert_eq!(calls.load(Ordering::SeqCst), 1);
    let second = held.serialized(&encode);
    assert!(Arc::ptr_eq(&first, &second));
    assert_eq!(calls.load(Ordering::SeqCst), 1);
}

#[test]
fn serialized_keeps_the_first_encoding_even_for_another_encoder() {
    let mut held = RetainedValue::new(Arc::new(7u8));
    let first = held.serialized(&|value: &u8| vec![*value]);
    let second = held.serialized(&|value: &u8| vec![*value, *value]);
    assert_eq!(&*first, &[7]);
    assert_eq!(&*second, &[7]);
}

#[test]
fn serialized_of_an_empty_encoding_is_empty() {
    let mut held = RetainedValue::new(Arc::new(()));
    let bytes = held.serialized(&|_value: &()| Vec::new());
    assert!(bytes.is_empty());
}
