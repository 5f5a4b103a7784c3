use tauri_wasm::{Error, TransportValue};

fn raw() -> TransportValue {
    TransportValue::Record(vec![("code", "42".to_owned())])
}

#[test]
fn as_ref_shows_the_raw_value_of_each_variant() {
    assert_eq!(Error::Invoke(raw()).as_ref(), &raw());
    assert_eq!(Error::Args(raw()).as_ref(), &raw());
    assert_eq!(Error::Headers(raw()).as_ref(), &raw());
}

#[test]
fn from_gives_the_raw_value_back() {
    assert_eq!(TransportValue::from(Error::Invoke(raw())), raw());
    assert_eq!(TransportValue::from(Error::Args(TransportValue::Undefined)), TransportValue::Undefined);
    assert_eq!(
        TransportValue::from(Error::Headers(TransportValue::Bytes(vec![1]))),
        TransportValue::Bytes(vec![1])
    );
}

#[test]
fn the_three_kinds_of_error_differ() {
    assert_ne!(Error::Invoke(raw()), Error::Args(raw()));
    assert_ne!(Error::Args(raw()), Error::Headers(raw()));
    assert_ne!(Error::Invoke(raw()), Error::Headers(raw()));
}
