//! Transport values: what crosses to the host, and what it stands for.

use vstd::prelude::*;
use wasm_bindgen::JsValue;

verus! {

/// What a transport value is on the host's side.
pub enum Content {
    /// The host's `undefined`: nothing was given.
    Undefined,
    /// A string.
    Text(Seq<char>),
    /// A binary array of exactly these bytes.
    Bytes(Seq<u8>),
    /// A plain object on which these fields were set, one after the other.
    Record(Seq<(Seq<char>, Seq<char>)>),
    /// A keyed map into which these entries were put, one after the other.
    Table(Seq<(Seq<char>, Seq<char>)>),
    /// A value that the host made, or that the caller prepared on the host's
    /// side. It is carried as it is and never looked into.
    Handle(JsValue),
}

/// A value that can cross to the host.
///
/// All variants but [`Handle`](TransportValue::Handle) are plain data, held on
/// this side until the call is made.
#[derive(Debug, PartialEq)]
pub enum TransportValue {
    Undefined,
    Text(String),
    Bytes(Vec<u8>),
    Record(Vec<(&'static str, String)>),
    Table(Vec<(String, String)>),
    Handle(JsValue),
}

/// The fields of a record, name and value, in their order.
pub open spec fn fields_view(fields: Seq<(&'static str, String)>) -> Seq<(Seq<char>, Seq<char>)> {
    Seq::new(fields.len(), |i: int| (fields[i].0@, fields[i].1@))
}

/// The entries of a map, key and value, in their order.
pub open spec fn entries_view(entries: Seq<(String, String)>) -> Seq<(Seq<char>, Seq<char>)> {
    Seq::new(entries.len(), |i: int| (entries[i].0@, entries[i].1@))
}

impl View for TransportValue {
    type V = Content;

    open spec fn view(&self) -> Content {
        match self {
            TransportValue::Undefined => Content::Undefined,
            TransportValue::Text(s) => Content::Text(s@),
            TransportValue::Bytes(b) => Content::Bytes(b@),
            TransportValue::Record(fields) => Content::Record(fields_view(fields@)),
            TransportValue::Table(entries) => Content::Table(entries_view(entries@)),
            TransportValue::Handle(v) => Content::Handle(*v),
        }
    }
}

} // verus!
