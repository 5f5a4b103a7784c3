//! Events: whom an event is for, and the call that emits it.

use crate::encode::Encode;
use crate::error::Error;
use crate::string::ToStringValue;
use crate::value::{Content, TransportValue};
use vstd::prelude::*;

verus! {

/// An argument of event target for the [`to`](Emit::to) function.
///
/// The host knows each variant by a fixed number, [`kind`](EventTarget::kind),
/// and by its label, where it has one. The numbers are part of the wire
/// format and never change.
#[derive(Debug, PartialEq)]
pub enum EventTarget<S> {
    Any,
    AnyLabel(S),
    App,
    Window(S),
    Webview(S),
    WebviewWindow(S),
}

impl<S> EventTarget<S> {
    /// The number by which the host knows the variant: 1 to 6, in the order
    /// in which the variants are declared.
    pub open spec fn kind(self) -> u32 {
        match self {
            EventTarget::Any => 1,
            EventTarget::AnyLabel(_) => 2,
            EventTarget::App => 3,
            EventTarget::Window(_) => 4,
            EventTarget::Webview(_) => 5,
            EventTarget::WebviewWindow(_) => 6,
        }
    }

    /// The label of the target, where the variant has one.
    pub open spec fn label(self) -> Option<S> {
        match self {
            EventTarget::Any => None,
            EventTarget::AnyLabel(s) => Some(s),
            EventTarget::App => None,
            EventTarget::Window(s) => Some(s),
            EventTarget::Webview(s) => Some(s),
            EventTarget::WebviewWindow(s) => Some(s),
        }
    }

    /// The target whose label is listened to, whatever bears it.
    pub fn from_string(s: S) -> (target: Self)
        ensures
            target == EventTarget::AnyLabel(s),
    {
        EventTarget::AnyLabel(s)
    }

    /// The same target, with its label borrowed.
    pub fn as_ref(&self) -> (target: EventTarget<&S>)
        ensures
            target.kind() == self.kind(),
            match self.label() {
                Some(s) => target.label() == Some(&s),
                None => target.label() is None,
            },
    {
        match self {
            EventTarget::Any => EventTarget::Any,
            EventTarget::AnyLabel(s) => EventTarget::AnyLabel(s),
            EventTarget::App => EventTarget::App,
            EventTarget::Window(s) => EventTarget::Window(s),
            EventTarget::Webview(s) => EventTarget::Webview(s),
            EventTarget::WebviewWindow(s) => EventTarget::WebviewWindow(s),
        }
    }

    /// The same target, with `f` applied to its label. Where the target has
    /// no label, `f` is not called.
    pub fn map<F, T>(self, f: F) -> (target: EventTarget<T>) where F: FnOnce(S) -> T
        requires
            self.label() matches Some(s) ==> f.requires((s,)),
        ensures
            target.kind() == self.kind(),
            match self.label() {
                Some(s) => target.label() matches Some(t) && f.ensures((s,), t),
                None => target.label() is None,
            },
    {
        match self {
            EventTarget::Any => EventTarget::Any,
            EventTarget::AnyLabel(s) => EventTarget::AnyLabel(f(s)),
            EventTarget::App => EventTarget::App,
            EventTarget::Window(s) => EventTarget::Window(f(s)),
            EventTarget::Webview(s) => EventTarget::Webview(f(s)),
            EventTarget::WebviewWindow(s) => EventTarget::WebviewWindow(f(s)),
        }
    }
}

impl<'a> From<&'a str> for EventTarget<&'a str> {
    fn from(s: &'a str) -> (target: Self) {
        EventTarget::from_string(s)
    }
}

impl<'a> vstd::std_specs::convert::FromSpecImpl<&'a str> for EventTarget<&'a str> {
    open spec fn obeys_from_spec() -> bool {
        true
    }

    open spec fn from_spec(s: &'a str) -> Self {
        EventTarget::AnyLabel(s)
    }
}

/// The two commands by which the host takes events.
#[derive(Clone, Copy, Debug, PartialEq, Eq)]
pub enum EventCommand {
    /// For an event without a target.
    Emit,
    /// For an event with a target.
    EmitTo,
}

impl EventCommand {
    /// The name of the command.
    pub open spec fn name_text(self) -> Seq<char> {
        match self {
            EventCommand::Emit => "emit"@,
            EventCommand::EmitTo => "emit_to"@,
        }
    }

    /// The command as the host's router knows it: the name, filed under the
    /// host's event plugin.
    pub open spec fn path_text(self) -> Seq<char> {
        match self {
            EventCommand::Emit => "plugin:event|emit"@,
            EventCommand::EmitTo => "plugin:event|emit_to"@,
        }
    }

    /// The name of the command: `emit` or `emit_to`.
    pub fn name(self) -> (name: &'static str)
        ensures
            name@ == self.name_text(),
    {
        match self {
            EventCommand::Emit => "emit",
            EventCommand::EmitTo => "emit_to",
        }
    }

    /// The command as the host's router knows it: `plugin:event|emit` or
    /// `plugin:event|emit_to`.
    pub fn path(self) -> (path: &'static str)
        ensures
            path@ == self.path_text(),
    {
        match self {
            EventCommand::Emit => "plugin:event|emit",
            EventCommand::EmitTo => "plugin:event|emit_to",
        }
    }
}

/// The command for a target: `emit` where there is none, `emit_to` where
/// there is one, whichever it is.
pub open spec fn wire_command<S>(target: Option<EventTarget<S>>) -> EventCommand {
    if target is None {
        EventCommand::Emit
    } else {
        EventCommand::EmitTo
    }
}

/// The number that crosses for a target: 0 where there is none, else its
/// [`kind`](EventTarget::kind).
pub open spec fn wire_kind<S>(target: Option<EventTarget<S>>) -> u32 {
    match target {
        None => 0,
        Some(target) => target.kind(),
    }
}

/// The label that crosses for a target: the host's `undefined` where there
/// is no target or the target has no label, else the label.
pub open spec fn wire_label(target: Option<EventTarget<Content>>) -> Content {
    match target {
        None => Content::Undefined,
        Some(target) => match target.label() {
            None => Content::Undefined,
            Some(label) => label,
        },
    }
}

/// A target with each label as it is on the host's side.
pub open spec fn target_content(target: EventTarget<TransportValue>) -> EventTarget<Content> {
    match target {
        EventTarget::Any => EventTarget::Any,
        EventTarget::AnyLabel(s) => EventTarget::AnyLabel(s@),
        EventTarget::App => EventTarget::App,
        EventTarget::Window(s) => EventTarget::Window(s@),
        EventTarget::Webview(s) => EventTarget::Webview(s@),
        EventTarget::WebviewWindow(s) => EventTarget::WebviewWindow(s@),
    }
}

/// A target with each label as its name is on the host's side.
pub open spec fn named_target<S: ToStringValue>(target: EventTarget<S>) -> EventTarget<Content> {
    match target {
        EventTarget::Any => EventTarget::Any,
        EventTarget::AnyLabel(s) => EventTarget::AnyLabel(s.string_content()),
        EventTarget::App => EventTarget::App,
        EventTarget::Window(s) => EventTarget::Window(s.string_content()),
        EventTarget::Webview(s) => EventTarget::Webview(s.string_content()),
        EventTarget::WebviewWindow(s) => EventTarget::WebviewWindow(s.string_content()),
    }
}

/// An optional target with each label as it is on the host's side.
pub open spec fn option_target_content(target: Option<EventTarget<TransportValue>>) -> Option<
    EventTarget<Content>,
> {
    match target {
        None => None,
        Some(target) => Some(target_content(target)),
    }
}

/// The label of a target as a transport value.
fn label_value<S: ToStringValue>(label: S) -> (v: TransportValue)
    ensures
        v@ == label.string_content(),
{
    label.to_string_value()
}

/// An emission as the host will see it.
pub struct Emission {
    /// The name of the event.
    pub event: Content,
    /// The payload, encoded.
    pub payload: Content,
    /// Whom the event is for: `None` for everyone who listens.
    pub target: Option<EventTarget<Content>>,
}

/// A type used to configure an [emit](emit) operation.
#[derive(Debug, PartialEq)]
pub struct Emit {
    event: TransportValue,
    payload: TransportValue,
    target: Option<EventTarget<TransportValue>>,
}

impl View for Emit {
    type V = Emission;

    closed spec fn view(&self) -> Emission {
        Emission {
            event: self.event@,
            payload: self.payload@,
            target: option_target_content(self.target),
        }
    }
}

/// Sends an event to the backend.
///
/// The payload is encoded here. Where that fails, no emission is made and
/// the error is one of the arguments, with the raw value that the encoder
/// failed with. To trigger an event to a listener registered by a specific
/// target you can use the [`to`](Emit::to) function.
pub fn emit<E: ToStringValue, P: Encode>(event: E, payload: P) -> (r: Result<Emit, Error>)
    ensures
        match payload.encoded() {
            Ok(content) => r matches Ok(emission) && emission@ == (Emission {
                event: event.string_content(),
                payload: content,
                target: None,
            }),
            Err(raw) => r == Err::<Emit, Error>(Error::Args(raw)),
        },
{
    let payload = match payload.encode() {
        Ok(payload) => payload,
        Err(raw) => { return Err(Error::Args(raw)); },
    };
    let event = event.to_string_value();
    let target = None;
    Ok(Emit { event, payload, target })
}

impl Emit {
    /// Sends an event to a listener registered by a specific target.
    ///
    /// The target replaces the one that the emission had; the event and the
    /// payload stay.
    pub fn to<S: ToStringValue>(self, target: EventTarget<S>) -> (r: Emit)
        ensures
            r@ == (Emission { target: Some(named_target(target)), ..self@ }),
    {
        let event = self.event;
        let payload = self.payload;
        let named = target.map(label_value::<S>);
        Emit { event, payload, target: Some(named) }
    }

    /// Takes the emission apart: the target, the event and the payload.
    pub fn into_parts(self) -> (parts: (
        Option<EventTarget<TransportValue>>,
        TransportValue,
        TransportValue,
    ))
        ensures
            option_target_content(parts.0) == self@.target,
            parts.1@ == self@.event,
            parts.2@ == self@.payload,
    {
        (self.target, self.event, self.payload)
    }

    /// The call that emits the event: see [`invoke_emit`].
    pub fn into_call(self) -> (call: EmitCall)
        ensures
            call.command == wire_command(self@.target),
            call.kind == wire_kind(self@.target),
            call.label@ == wire_label(self@.target),
            call.event@ == self@.event,
            call.payload@ == self@.payload,
    {
        invoke_emit(self.target, self.event, self.payload)
    }
}

/// The call by which an event is emitted: what the host is asked, and with
/// what.
#[derive(Debug, PartialEq)]
pub struct EmitCall {
    /// The command that is called.
    pub command: EventCommand,
    /// The number of the target: 0 for none, 1 to 6 for the variants.
    pub kind: u32,
    /// The label of the target, or `Undefined` where there is none.
    pub label: TransportValue,
    /// The name of the event.
    pub event: TransportValue,
    /// The payload, encoded.
    pub payload: TransportValue,
}

/// Works out the call that emits `event` with `payload` to `target`.
///
/// Without a target the command is `emit`, the number 0 and the label
/// `undefined`. With one the command is `emit_to`, the number that of the
/// variant, and the label that of the target, or `undefined` where the
/// variant has none. Event and payload are handed on unchanged.
pub fn invoke_emit(
    target: Option<EventTarget<TransportValue>>,
    event: TransportValue,
    payload: TransportValue,
) -> (call: EmitCall)
    ensures
        call.command == wire_command(target),
        call.kind == wire_kind(target),
        call.label@ == wire_label(option_target_content(target)),
        match target {
            Some(target) => match target.label() {
                Some(label) => call.label == label,
                None => call.label == TransportValue::Undefined,
            },
            None => call.label == TransportValue::Undefined,
        },
        call.event == event,
        call.payload == payload,
{
    let command = if target.is_none() {
        EventCommand::Emit
    } else {
        EventCommand::EmitTo
    };
    let (kind, label): (u32, TransportValue) = match target {
        None => (0, TransportValue::Undefined),
        Some(target) => match target {
            EventTarget::Any => (1, TransportValue::Undefined),
            EventTarget::AnyLabel(s) => (2, s),
            EventTarget::App => (3, TransportValue::Undefined),
            EventTarget::Window(s) => (4, s),
            EventTarget::Webview(s) => (5, s),
            EventTarget::WebviewWindow(s) => (6, s),
        },
    };
    EmitCall { command, kind, label, event, payload }
}

} // verus!
