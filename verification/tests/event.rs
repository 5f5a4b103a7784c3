use tauri_wasm::event::{invoke_emit, Emit, EmitCall, EventCommand};
use tauri_wasm::invoke::settle;
use tauri_wasm::{emit, Error, EventTarget, TransportValue};

fn text(s: &str) -> TransportValue {
    TransportValue::Text(s.to_owned())
}

fn call_for(target: EventTarget<&str>) -> EmitCall {
    emit("file-selected", "/tmp/a").unwrap().to(target).into_call()
}

/// Sends the emission to a host that is a plain function.
fn send(
    emission: Emit,
    host: fn(EmitCall) -> Result<TransportValue, TransportValue>,
) -> Result<TransportValue, Error> {
    settle(host(emission.into_call()))
}

fn host_reject(_: EmitCall) -> Result<TransportValue, TransportValue> {
    Err(TransportValue::Record(vec![("code", "42".to_owned())]))
}

fn host_accept(_: EmitCall) -> Result<TransportValue, TransportValue> {
    Ok(TransportValue::Undefined)
}

#[test]
fn emit_without_target_calls_emit() {
    let call = emit("file-selected", "/tmp/a").unwrap().into_call();
    assert_eq!(call.command, EventCommand::Emit);
    assert_eq!(call.command.name(), "emit");
    assert_eq!(call.command.path(), "plugin:event|emit");
    assert_eq!(call.kind, 0);
    assert_eq!(call.label, TransportValue::Undefined);
    assert_eq!(call.event, text("file-selected"));
    assert_eq!(call.payload, text("/tmp/a"));
}

#[test]
fn emit_to_window_calls_emit_to_with_kind_4() {
    let call = call_for(EventTarget::Window("main"));
    assert_eq!(call.command, EventCommand::EmitTo);
    assert_eq!(call.command.name(), "emit_to");
    assert_eq!(call.command.path(), "plugin:event|emit_to");
    assert_eq!(call.kind, 4);
    assert_eq!(call.label, text("main"));
    assert_eq!(call.event, text("file-selected"));
    assert_eq!(call.payload, text("/tmp/a"));
}

#[test]
fn every_target_has_its_kind_and_label() {
    let any = call_for(EventTarget::Any);
    assert_eq!((any.kind, any.label), (1, TransportValue::Undefined));
    let any_label = call_for(EventTarget::AnyLabel("editor"));
    assert_eq!((any_label.kind, any_label.label), (2, text("editor")));
    let app = call_for(EventTarget::App);
    assert_eq!((app.kind, app.label), (3, TransportValue::Undefined));
    let window = call_for(EventTarget::Window("main"));
    assert_eq!((window.kind, window.label), (4, text("main")));
    let webview = call_for(EventTarget::Webview("view"));
    assert_eq!((webview.kind, webview.label), (5, text("view")));
    let both = call_for(EventTarget::WebviewWindow("both"));
    assert_eq!((both.kind, both.label), (6, text("both")));
}

#[test]
fn every_target_calls_emit_to() {
    assert_eq!(call_for(EventTarget::Any).command, EventCommand::EmitTo);
    assert_eq!(call_for(EventTarget::AnyLabel("a")).command, EventCommand::EmitTo);
    assert_eq!(call_for(EventTarget::App).command, EventCommand::EmitTo);
    assert_eq!(call_for(EventTarget::Window("a")).command, EventCommand::EmitTo);
    assert_eq!(call_for(EventTarget::Webview("a")).command, EventCommand::EmitTo);
    assert_eq!(call_for(EventTarget::WebviewWindow("a")).command, EventCommand::EmitTo);
}

#[test]
fn invoke_emit_hands_event_and_payload_on() {
    let call = invoke_emit(
        Some(EventTarget::Webview(text("side"))),
        text("test-event"),
        TransportValue::Bytes(vec![1, 2]),
    );
    assert_eq!(
        call,
        EmitCall {
            command: EventCommand::EmitTo,
            kind: 5,
            label: text("side"),
            event: text("test-event"),
            payload: TransportValue::Bytes(vec![1, 2]),
        }
    );
    let call = invoke_emit(None, text("test-event"), TransportValue::Undefined);
    assert_eq!(
        call,
        EmitCall {
            command: EventCommand::Emit,
            kind: 0,
            label: TransportValue::Undefined,
            event: text("test-event"),
            payload: TransportValue::Undefined,
        }
    );
}

#[test]
fn an_empty_label_is_a_label() {
    let call = call_for(EventTarget::Window(""));
    assert_eq!((call.kind, call.label), (4, text("")));
}

#[test]
fn to_replaces_an_earlier_target() {
    let call = emit("e", "p")
        .unwrap()
        .to(EventTarget::Window("first"))
        .to(EventTarget::<&str>::App)
        .into_call();
    assert_eq!((call.kind, call.label), (3, TransportValue::Undefined));
}

#[test]
fn emit_into_parts_shows_the_emission() {
    let (target, event, payload) = emit("test-event", "payload").unwrap().into_parts();
    assert_eq!(target, None);
    assert_eq!(event, text("test-event"));
    assert_eq!(payload, text("payload"));
    let (target, _, _) = emit("test-event", "payload")
        .unwrap()
        .to(EventTarget::from("app"))
        .into_parts();
    assert_eq!(target, Some(EventTarget::AnyLabel(text("app"))));
}

#[test]
fn emit_with_a_payload_that_cannot_be_encoded_fails_before_the_host() {
    let failed: Result<TransportValue, TransportValue> = Err(text("unsupported field"));
    assert_eq!(emit("file-selected", failed), Err(Error::Args(text("unsupported field"))));
}

#[test]
fn emit_with_structured_payload_keeps_it() {
    let message = TransportValue::Record(vec![("key", "secret".to_owned()), ("data", "37".to_owned())]);
    let call = emit("file-selected", message).unwrap().into_call();
    assert_eq!(
        call.payload,
        TransportValue::Record(vec![("key", "secret".to_owned()), ("data", "37".to_owned())])
    );
}

#[test]
fn emit_rejected_keeps_the_raw_value() {
    let error = send(emit("file-selected", "/tmp/a").unwrap(), host_reject).unwrap_err();
    assert!(matches!(error, Error::Invoke(_)));
    assert_eq!(error.as_ref(), &TransportValue::Record(vec![("code", "42".to_owned())]));
}

#[test]
fn emit_accepted_resolves_to_the_host_value() {
    let answer = send(emit("file-selected", "/tmp/a").unwrap().to(EventTarget::<&str>::App), host_accept);
    assert_eq!(answer, Ok(TransportValue::Undefined));
}

#[test]
fn from_string_is_any_label() {
    assert_eq!(EventTarget::from_string("editor"), EventTarget::AnyLabel("editor"));
    assert_eq!(EventTarget::from("editor"), EventTarget::AnyLabel("editor"));
    assert_eq!(EventTarget::from_string(7u8), EventTarget::AnyLabel(7u8));
}

#[test]
fn as_ref_borrows_the_label_of_each_variant() {
    let any: EventTarget<String> = EventTarget::Any;
    assert_eq!(any.as_ref(), EventTarget::Any);
    let app: EventTarget<String> = EventTarget::App;
    assert_eq!(app.as_ref(), EventTarget::App);
    let label = String::from("main");
    assert_eq!(EventTarget::AnyLabel(label.clone()).as_ref(), EventTarget::AnyLabel(&label));
    assert_eq!(EventTarget::Window(label.clone()).as_ref(), EventTarget::Window(&label));
    assert_eq!(EventTarget::Webview(label.clone()).as_ref(), EventTarget::Webview(&label));
    assert_eq!(
        EventTarget::WebviewWindow(label.clone()).as_ref(),
        EventTarget::WebviewWindow(&label)
    );
}

#[test]
fn map_changes_the_label_and_keeps_the_variant() {
    let len = |s: &str| s.len();
    assert_eq!(EventTarget::AnyLabel("ab").map(len), EventTarget::AnyLabel(2));
    assert_eq!(EventTarget::Window("abc").map(len), EventTarget::Window(3));
    assert_eq!(EventTarget::Webview("").map(len), EventTarget::Webview(0));
    assert_eq!(EventTarget::WebviewWindow("abcd").map(len), EventTarget::WebviewWindow(4));
}

#[test]
fn map_does_not_call_f_without_a_label() {
    let any: EventTarget<&str> = EventTarget::Any;
    assert_eq!(any.map(|_| -> u8 { panic!("no label to map") }), EventTarget::Any);
    let app: EventTarget<&str> = EventTarget::App;
    assert_eq!(app.map(|_| -> u8 { panic!("no label to map") }), EventTarget::App);
}
