//! What holds of the library as a whole, proved from the contracts of its
//! functions.

use crate::encode::{args, Data, Encode};
use crate::error::Error;
use crate::event::{emit, invoke_emit, Emit, EmitCall, EventCommand, EventTarget};
use crate::invoke::{
    invoke, invoke_with_args, invoke_with_options, settle, Invoke, Options, ToArgs,
};
use crate::string::ToStringValue;
use crate::value::{Content, TransportValue};
use vstd::prelude::*;

verus! {

/// A name is encoded the same way each time: whatever two calls of
/// `to_string_value` return for one name, it is the same on the host's side.
pub proof fn names_encode_the_same_each_time<C: ToStringValue>(
    name: C,
    first: TransportValue,
    second: TransportValue,
)
    requires
        call_ensures(C::to_string_value, (name,), first),
        call_ensures(C::to_string_value, (name,), second),
    ensures
        first@ == second@,
{
}

/// Arguments are encoded the same way each time: whatever two calls of
/// `to_args` return for one input, it is the same on the host's side.
pub proof fn args_encode_the_same_each_time<A: ToArgs>(
    input: A,
    first: TransportValue,
    second: TransportValue,
)
    requires
        call_ensures(A::to_args, (input,), first),
        call_ensures(A::to_args, (input,), second),
    ensures
        first@ == second@,
{
}

/// Data is encoded the same way each time: whatever two calls of `encode`
/// return for one input, both succeed with the same value on the host's
/// side, or both fail with the same raw value.
pub proof fn data_encodes_the_same_each_time<T: Encode>(
    input: T,
    first: Result<TransportValue, TransportValue>,
    second: Result<TransportValue, TransportValue>,
)
    requires
        call_ensures(T::encode, (input,), first),
        call_ensures(T::encode, (input,), second),
    ensures
        match (first, second) {
            (Ok(a), Ok(b)) => a@ == b@,
            (Err(a), Err(b)) => a == b,
            _ => false,
        },
{
}

/// A request whose arguments were left out is the request to which "no
/// data" was given as arguments: both carry the host's `undefined`.
pub proof fn omitted_args_are_undefined<C: ToStringValue>(
    cmd: C,
    bare: Invoke,
    nothing: Result<Data, Error>,
    explicit: Invoke,
)
    requires
        call_ensures(invoke::<C>, (cmd,), bare),
        call_ensures(args::<()>, ((),), nothing),
        nothing is Ok ==> call_ensures(Invoke::with_args::<Data>, (bare, nothing->Ok_0), explicit),
    ensures
        nothing is Ok,
        bare@.args == Content::Undefined,
        explicit@ == bare@,
{
}

/// A request whose options were left out is the request to which options
/// without headers were given: both carry the host's `undefined` as headers,
/// never an empty set of headers.
pub proof fn omitted_options_are_undefined<C: ToStringValue>(
    cmd: C,
    bare: Invoke,
    empty: Options,
    explicit: Invoke,
)
    requires
        call_ensures(invoke::<C>, (cmd,), bare),
        call_ensures(Options::empty, (), empty),
        call_ensures(Invoke::with_options, (bare, empty), explicit),
    ensures
        bare@.headers == Content::Undefined,
        explicit@ == bare@,
{
}

/// The short forms build what the steps build: a request made at once with
/// arguments and options is the request made by `invoke`, `with_args` and
/// `with_options` in turn.
pub proof fn short_forms_are_the_steps<C: ToStringValue, A: ToArgs>(
    cmd: C,
    data: A,
    opts: Options,
    at_once: Invoke,
    named: Invoke,
    with_data: Invoke,
    stepwise: Invoke,
)
    requires
        call_ensures(invoke_with_options::<C, A>, (cmd, data, opts), at_once),
        call_ensures(invoke::<C>, (cmd,), named),
        call_ensures(Invoke::with_args::<A>, (named, data), with_data),
        call_ensures(Invoke::with_options, (with_data, opts), stepwise),
    ensures
        at_once@ == stepwise@,
{
}

/// Every target has exactly one number and one label or none, as the table
/// says: `Any` 1, `AnyLabel` 2 with its label, `App` 3, `Window` 4,
/// `Webview` 5 and `WebviewWindow` 6, each with its label.
pub proof fn target_table<S>(target: EventTarget<S>)
    ensures
        1 <= target.kind() <= 6,
        target.kind() == 1 <==> target is Any,
        target.kind() == 2 <==> target is AnyLabel,
        target.kind() == 3 <==> target is App,
        target.kind() == 4 <==> target is Window,
        target.kind() == 5 <==> target is Webview,
        target.kind() == 6 <==> target is WebviewWindow,
        target.label() is None <==> target is Any || target is App,
        target matches EventTarget::AnyLabel(s) ==> target.label() == Some(s),
        target matches EventTarget::Window(s) ==> target.label() == Some(s),
        target matches EventTarget::Webview(s) ==> target.label() == Some(s),
        target matches EventTarget::WebviewWindow(s) ==> target.label() == Some(s),
{
}

/// Number and label say which target it is: two targets with the same
/// number and the same label are the same target.
pub proof fn target_is_told_by_kind_and_label<S>(a: EventTarget<S>, b: EventTarget<S>)
    requires
        a.kind() == b.kind(),
        a.label() == b.label(),
    ensures
        a == b,
{
}

/// The command of an emission is chosen by whether there is a target, and
/// by nothing else: `emit` and the number 0 without one, `emit_to` and the
/// number and label of the target with one, whichever it is.
pub proof fn command_follows_target(
    target: Option<EventTarget<TransportValue>>,
    event: TransportValue,
    payload: TransportValue,
    call: EmitCall,
)
    requires
        call_ensures(invoke_emit, (target, event, payload), call),
    ensures
        target is None <==> call.command == EventCommand::Emit,
        target is Some <==> call.command == EventCommand::EmitTo,
        target is None <==> call.kind == 0,
        target matches Some(t) ==> call.kind == t.kind() && 1 <= call.kind <= 6,
        target matches Some(t) ==> (match t.label() {
            Some(label) => call.label == label,
            None => call.label == TransportValue::Undefined,
        }),
        target is None ==> call.label == TransportValue::Undefined,
{
}

/// What is encoded and sent comes back as it was from a host that answers
/// each call with the arguments of that call: the caller is handed a value
/// that is, on the host's side, what the encoder made of the data.
pub proof fn echoed_args_come_back<C: ToStringValue, T: Encode>(
    cmd: C,
    data: T,
    encoded: Result<Data, Error>,
    request: Invoke,
    parts: (TransportValue, TransportValue, Options),
    answer: Result<TransportValue, Error>,
)
    requires
        data.encoded() is Ok,
        call_ensures(args::<T>, (data,), encoded),
        encoded is Ok ==> call_ensures(
            invoke_with_args::<C, Data>,
            (cmd, encoded->Ok_0),
            request,
        ),
        call_ensures(Invoke::into_parts, (request,), parts),
        call_ensures(settle, (Ok::<TransportValue, TransportValue>(parts.1),), answer),
    ensures
        encoded is Ok,
        answer == Ok::<TransportValue, Error>(parts.1),
        answer matches Ok(value) && Ok::<Content, TransportValue>(value@) == data.encoded(),
{
}

/// The payload of an event crosses as the encoder made it, and the event
/// under the name that was given, whatever the target.
pub proof fn emitted_payload_is_kept<E: ToStringValue, P: Encode, S: ToStringValue>(
    event: E,
    payload: P,
    target: EventTarget<S>,
    made: Result<Emit, Error>,
    aimed: Emit,
    call: EmitCall,
)
    requires
        payload.encoded() is Ok,
        call_ensures(emit::<E, P>, (event, payload), made),
        made is Ok ==> call_ensures(Emit::to::<S>, (made->Ok_0, target), aimed),
        call_ensures(Emit::into_call, (aimed,), call),
    ensures
        made is Ok,
        Ok::<Content, TransportValue>(call.payload@) == payload.encoded(),
        call.event@ == event.string_content(),
        call.command == EventCommand::EmitTo,
        call.kind == target.kind(),
{
}

/// An error keeps the raw value that it was made of: what the host raised
/// is what the caller finds in the error, and what the error gives back.
pub proof fn error_keeps_raw_value(raw: TransportValue, answer: Result<TransportValue, Error>)
    requires
        call_ensures(settle, (Err::<TransportValue, TransportValue>(raw),), answer),
    ensures
        answer == Err::<TransportValue, Error>(Error::Invoke(raw)),
        answer matches Err(e) && e.raw() == raw && !e.is_local(),
{
}

} // verus!
