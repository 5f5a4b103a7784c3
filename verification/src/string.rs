//! Names of commands and events, as values that can cross to the host.

use crate::value::{Content, TransportValue};
use vstd::prelude::*;
use wasm_bindgen::JsValue;

verus! {

/// A value that can be represented as a string of the host.
///
/// Nothing is changed or rejected on the way: an empty name stays an empty
/// name, and the host is left to answer it.
pub trait ToStringValue: Sized {
    /// What the name is on the host's side.
    spec fn string_content(self) -> Content;

    /// The name as a transport value: its text, or the handle of a string
    /// that the host already holds.
    fn to_string_value(self) -> (v: TransportValue)
        ensures
            v@ == self.string_content(),
            v is Text || v is Handle,
    ;
}

impl ToStringValue for String {
    open spec fn string_content(self) -> Content {
        Content::Text(self@)
    }

    fn to_string_value(self) -> (v: TransportValue) {
        TransportValue::Text(self)
    }
}

impl ToStringValue for &String {
    open spec fn string_content(self) -> Content {
        Content::Text(self@)
    }

    fn to_string_value(self) -> (v: TransportValue) {
        TransportValue::Text(self.clone())
    }
}

impl ToStringValue for &str {
    open spec fn string_content(self) -> Content {
        Content::Text(self@)
    }

    fn to_string_value(self) -> (v: TransportValue) {
        TransportValue::Text(self.to_owned())
    }
}

/// A string that already lives with the host is handed on as it is.
impl ToStringValue for JsValue {
    open spec fn string_content(self) -> Content {
        Content::Handle(self)
    }

    fn to_string_value(self) -> (v: TransportValue) {
        TransportValue::Handle(self)
    }
}

} // verus!
