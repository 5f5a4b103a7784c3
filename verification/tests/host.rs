use tauri_wasm::event::{invoke_emit, EventTarget};
use tauri_wasm::invoke::{IntoHeaders, ToArgs};
use tauri_wasm::{invoke, Error, ToStringValue, TransportValue};
use wasm_bindgen::convert::IntoWasmAbi;
use wasm_bindgen::JsValue;

/// The number by which the binding knows a handle. The constants of the host
/// have fixed numbers, which can be told apart without the host.
fn number(v: &JsValue) -> u32 {
    v.into_abi()
}

#[test]
fn undefined_crosses_as_the_undefined_of_the_host() {
    let v = TransportValue::Undefined.into_js().unwrap();
    assert_eq!(number(&v), number(&JsValue::UNDEFINED));
    assert_ne!(number(&v), number(&JsValue::NULL));
}

#[test]
fn a_handle_crosses_as_it_is() {
    let v = TransportValue::Handle(JsValue::NULL).into_js().unwrap();
    assert_eq!(number(&v), number(&JsValue::NULL));
    let v = TransportValue::Handle(JsValue::TRUE).into_js().unwrap();
    assert_eq!(number(&v), number(&JsValue::TRUE));
}

#[test]
fn a_handle_is_taken_as_name_args_and_headers() {
    assert!(matches!(JsValue::NULL.to_string_value(), TransportValue::Handle(_)));
    assert!(matches!(JsValue::NULL.to_args(), TransportValue::Handle(_)));
    assert!(matches!(JsValue::NULL.into_headers(), Ok(TransportValue::Handle(_))));
}

#[test]
fn a_request_of_handles_crosses_part_by_part() {
    let opts = JsValue::FALSE.into_options().unwrap();
    let call = invoke(JsValue::TRUE)
        .with_args(JsValue::NULL)
        .with_options(opts)
        .into_host()
        .unwrap();
    assert_eq!(number(&call.cmd), number(&JsValue::TRUE));
    assert_eq!(number(&call.args), number(&JsValue::NULL));
    assert_eq!(number(&call.headers), number(&JsValue::FALSE));
}

#[test]
fn omitted_parts_cross_as_undefined() {
    let call = invoke(JsValue::TRUE).into_host().unwrap();
    assert_eq!(number(&call.args), number(&JsValue::UNDEFINED));
    assert_eq!(number(&call.headers), number(&JsValue::UNDEFINED));
}

#[test]
fn invoke_emit_keeps_handles() {
    let call = invoke_emit(
        Some(EventTarget::Window(TransportValue::Handle(JsValue::TRUE))),
        TransportValue::Handle(JsValue::NULL),
        TransportValue::Handle(JsValue::FALSE),
    );
    assert_eq!(call.kind, 4);
    match (call.label, call.event, call.payload) {
        (TransportValue::Handle(l), TransportValue::Handle(e), TransportValue::Handle(p)) => {
            assert_eq!(number(&l), number(&JsValue::TRUE));
            assert_eq!(number(&e), number(&JsValue::NULL));
            assert_eq!(number(&p), number(&JsValue::FALSE));
        }
        _ => panic!("a handle was changed"),
    }
}

#[test]
fn an_error_of_a_handle_gives_the_handle_back() {
    match TransportValue::from(Error::Invoke(TransportValue::Handle(JsValue::NULL))) {
        TransportValue::Handle(raw) => assert_eq!(number(&raw), number(&JsValue::NULL)),
        _ => panic!("the raw value was changed"),
    }
}
