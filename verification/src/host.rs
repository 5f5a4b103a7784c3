//! The host's side: its own values, and the calls that make them.
//!
//! A value of the host is known here by its handle alone. What is proved of
//! the functions in this file rests on what the bindings to the host are
//! taken to do: each binding says so above its contract. The bindings need
//! the host's glue. On a target without it, which is any but a wasm module
//! that the host has loaded, they panic, all but the constants and the
//! passing on of a handle.

use crate::error::Error;
use crate::event::EmitCall;
use crate::invoke::Invoke;
use crate::value::{entries_view, fields_view, Content, TransportValue};
use serde_wasm_bindgen::Serializer;
use vstd::prelude::*;
use wasm_bindgen::JsValue;

verus! {

/// `wasm_bindgen::JsValue`: a handle to a value that lives with the host.
#[verifier::external_type_specification]
#[verifier::external_body]
pub struct ExJsValue(wasm_bindgen::JsValue);

/// `serde_wasm_bindgen::Serializer`: the settings by which structures are
/// written as host values.
#[verifier::external_type_specification]
#[verifier::external_body]
pub struct ExSerializer(serde_wasm_bindgen::Serializer);

/// The plain object that `serde_wasm_bindgen`'s struct serializer is filling.
/// Its type lies in a private module of that crate, so it is held here.
#[verifier::external_body]
pub struct RecordWriter<'s> {
    inner: <&'s Serializer as serde::Serializer>::SerializeStruct,
}

/// The keyed map that `serde_wasm_bindgen`'s map serializer is filling.
/// Its type lies in a private module of that crate, so it is held here.
#[verifier::external_body]
pub struct MapWriter<'s> {
    inner: <&'s Serializer as serde::Serializer>::SerializeMap,
}

/// What the value behind a handle is.
pub uninterp spec fn content(v: JsValue) -> Content;

/// The fields set so far on the object that a record writer is filling.
pub uninterp spec fn record_fields(w: RecordWriter) -> Seq<(Seq<char>, Seq<char>)>;

/// The entries put so far into the map that a map writer is filling.
pub uninterp spec fn map_entries(w: MapWriter) -> Seq<(Seq<char>, Seq<char>)>;

/// Whether the settings ask for maps to be written as plain objects, not as
/// keyed maps.
pub uninterp spec fn maps_as_objects(ser: Serializer) -> bool;

/// `JsValue::undefined`: the handle of the host's `undefined`.
#[verifier::external_body]
fn undefined() -> (v: JsValue)
    ensures
        content(v) == Content::Undefined,
{
    JsValue::undefined()
}

/// `JsValue::from_str`: copies the text to the host and returns the handle of
/// the new string.
#[verifier::external_body]
fn text(s: &str) -> (v: JsValue)
    ensures
        content(v) == Content::Text(s@),
{
    JsValue::from_str(s)
}

/// `js_sys::Uint8Array::from` on a slice, then `JsValue::from`: a new
/// `Uint8Array` of the host that holds a copy of the bytes.
#[verifier::external_body]
fn bytes(b: &[u8]) -> (v: JsValue)
    ensures
        content(v) == Content::Bytes(b@),
{
    JsValue::from(js_sys::Uint8Array::from(b))
}

/// `serde_wasm_bindgen::Serializer::new`: the default settings, by which a
/// map is written as a keyed map.
#[verifier::external_body]
fn serializer() -> (ser: Serializer)
    ensures
        !maps_as_objects(ser),
{
    Serializer::new()
}

/// `serde::Serializer::serialize_struct` on `&Serializer`: starts a plain
/// object with no field set. This serializer returns `Ok` of the new writer
/// on every path, whatever the name and the length. The `Err` arm is there
/// for the signature: an error would come back as the host value that it
/// wraps.
#[verifier::external_body]
fn begin_record<'s>(ser: &'s Serializer, len: usize) -> (r: Result<RecordWriter<'s>, JsValue>)
    ensures
        r is Ok,
        r matches Ok(w) ==> record_fields(w) == Seq::<(Seq<char>, Seq<char>)>::empty(),
{
    match serde::Serializer::serialize_struct(ser, "Record", len) {
        Ok(inner) => Ok(RecordWriter { inner }),
        Err(e) => Err(JsValue::from(e)),
    }
}

/// `serde::ser::SerializeStruct::serialize_field` with a `str` value: sets the
/// field `key` of the object to a host string that holds `value`. The only
/// step of it that can fail is the writing of the value, and a `str` is
/// written by `serialize_str`, which this serializer answers with `Ok` of the
/// host string: so the call returns `Ok`. The `Err` arm is there for the
/// signature: an error would come back as the host value that it wraps.
#[verifier::external_body]
fn set_field(w: &mut RecordWriter, key: &'static str, value: &str) -> (r: Result<(), JsValue>)
    ensures
        r is Ok,
        record_fields(*final(w)) == record_fields(*old(w)).push((key@, value@)),
{
    match serde::ser::SerializeStruct::serialize_field(&mut w.inner, key, value) {
        Ok(()) => Ok(()),
        Err(e) => Err(JsValue::from(e)),
    }
}

/// `serde::ser::SerializeStruct::end`: hands out the object that was filled,
/// as `Ok` on every path. The `Err` arm is there for the signature: an error
/// would come back as the host value that it wraps.
#[verifier::external_body]
fn end_record(w: RecordWriter) -> (r: Result<JsValue, JsValue>)
    ensures
        r is Ok,
        r matches Ok(v) ==> content(v) == Content::Record(record_fields(w)),
{
    match serde::ser::SerializeStruct::end(w.inner) {
        Ok(v) => Ok(v),
        Err(e) => Err(JsValue::from(e)),
    }
}

/// `serde::Serializer::serialize_map` on `&Serializer`, where the settings
/// do not ask for plain objects: starts a keyed map of the host with no
/// entry. This serializer returns `Ok` of the new writer on every path,
/// whatever the length. The `Err` arm is there for the signature: an error
/// would come back as the host value that it wraps.
#[verifier::external_body]
fn begin_map<'s>(ser: &'s Serializer, len: usize) -> (r: Result<MapWriter<'s>, JsValue>)
    requires
        !maps_as_objects(*ser),
    ensures
        r is Ok,
        r matches Ok(w) ==> map_entries(w) == Seq::<(Seq<char>, Seq<char>)>::empty(),
{
    match serde::Serializer::serialize_map(ser, Some(len)) {
        Ok(inner) => Ok(MapWriter { inner }),
        Err(e) => Err(JsValue::from(e)),
    }
}

/// `serde::ser::SerializeMap::serialize_entry` with `str` key and value: puts
/// the entry into the map, both as host strings. It writes the key, then
/// the value, and a `str` is written by `serialize_str`, which this
/// serializer answers with `Ok` of the host string; putting the two into a
/// keyed map cannot fail: so the call returns `Ok`. The `Err` arm is there
/// for the signature: an error would come back as the host value that it
/// wraps.
#[verifier::external_body]
fn put_entry(w: &mut MapWriter, key: &str, value: &str) -> (r: Result<(), JsValue>)
    ensures
        r is Ok,
        map_entries(*final(w)) == map_entries(*old(w)).push((key@, value@)),
{
    match serde::ser::SerializeMap::serialize_entry(&mut w.inner, key, value) {
        Ok(()) => Ok(()),
        Err(e) => Err(JsValue::from(e)),
    }
}

/// `serde::ser::SerializeMap::end`: hands out the map that was filled, as
/// `Ok` on every path. The `Err` arm is there for the signature: an error
/// would come back as the host value that it wraps.
#[verifier::external_body]
fn end_map(w: MapWriter) -> (r: Result<JsValue, JsValue>)
    ensures
        r is Ok,
        r matches Ok(v) ==> content(v) == Content::Table(map_entries(w)),
{
    match serde::ser::SerializeMap::end(w.inner) {
        Ok(v) => Ok(v),
        Err(e) => Err(JsValue::from(e)),
    }
}

/// Whether the host value `v` is what `c` describes: the handle itself where
/// `c` is a handle, else a value with that content.
pub open spec fn stands_for(v: JsValue, c: Content) -> bool {
    match c {
        Content::Handle(h) => v == h,
        _ => content(v) == c,
    }
}

/// Writes a record as a plain object of the host, field by field, in the
/// order of the fields.
///
/// The result is always `Ok` of that object: text is all that a record
/// holds, and the serializer has no way to fail on text. Were it to raise
/// all the same, the writing would stop there and what it raised be
/// returned.
fn lower_record(fields: &Vec<(&'static str, String)>) -> (r: Result<JsValue, JsValue>)
    ensures
        r matches Ok(v) && content(v) == Content::Record(fields_view(fields@)),
{
    let ser = serializer();
    let mut w = match begin_record(&ser, fields.len()) {
        Ok(w) => w,
        Err(e) => { return Err(e); },
    };
    let mut i: usize = 0;
    while i < fields.len()
        invariant
            i <= fields.len(),
            record_fields(w) == fields_view(fields@).take(i as int),
        decreases fields.len() - i,
    {
        match set_field(&mut w, fields[i].0, fields[i].1.as_str()) {
            Ok(()) => {},
            Err(e) => { return Err(e); },
        }
        proof {
            assert(fields_view(fields@).take(i as int).push((fields@[i as int].0@, fields@[i as int].1@))
                =~= fields_view(fields@).take(i + 1));
        }
        i += 1;
    }
    proof {
        assert(fields_view(fields@).take(i as int) =~= fields_view(fields@));
    }
    end_record(w)
}

/// Writes the entries of a map into a keyed map of the host, one by one, in
/// the order of the entries.
///
/// The result is always `Ok` of that map: text is all that the entries
/// hold, and the serializer has no way to fail on text. Were it to raise all
/// the same, the writing would stop there and what it raised be returned.
fn lower_map(entries: &Vec<(String, String)>) -> (r: Result<JsValue, JsValue>)
    ensures
        r matches Ok(v) && content(v) == Content::Table(entries_view(entries@)),
{
    let ser = serializer();
    let mut w = match begin_map(&ser, entries.len()) {
        Ok(w) => w,
        Err(e) => { return Err(e); },
    };
    let mut i: usize = 0;
    while i < entries.len()
        invariant
            i <= entries.len(),
            map_entries(w) == entries_view(entries@).take(i as int),
        decreases entries.len() - i,
    {
        match put_entry(&mut w, entries[i].0.as_str(), entries[i].1.as_str()) {
            Ok(()) => {},
            Err(e) => { return Err(e); },
        }
        proof {
            assert(entries_view(entries@).take(i as int).push(
                (entries@[i as int].0@, entries@[i as int].1@),
            ) =~= entries_view(entries@).take(i + 1));
        }
        i += 1;
    }
    proof {
        assert(entries_view(entries@).take(i as int) =~= entries_view(entries@));
    }
    end_map(w)
}

impl TransportValue {
    /// Makes the host value that this value stands for.
    ///
    /// Plain data is copied to the host; a handle is handed on as it is.
    /// The result is always `Ok`: a record and a map are written by the
    /// serializer, which has no way to fail on the text that they hold. The
    /// `Err` is the serializer's, and would be what it raised.
    pub fn into_js(self) -> (r: Result<JsValue, JsValue>)
        ensures
            r matches Ok(v) && stands_for(v, self@),
    {
        match self {
            TransportValue::Undefined => Ok(undefined()),
            TransportValue::Text(s) => Ok(text(s.as_str())),
            TransportValue::Bytes(b) => Ok(bytes(b.as_slice())),
            TransportValue::Record(fields) => lower_record(&fields),
            TransportValue::Table(entries) => lower_map(&entries),
            TransportValue::Handle(v) => Ok(v),
        }
    }
}

/// A request, made of host values: what the host's call is handed.
pub struct HostCall {
    /// The name of the command.
    pub cmd: JsValue,
    /// The arguments.
    pub args: JsValue,
    /// The headers of the options.
    pub headers: JsValue,
}

impl Invoke {
    /// Makes the host values of the request: the command, the arguments and
    /// the headers, each as [`into_js`](TransportValue::into_js) makes it.
    ///
    /// The result is always `Ok`, as that of `into_js` is. Were the
    /// serializer to raise all the same, the error would be one of the
    /// arguments where they could not be written, and one of the headers
    /// where those could not. The host is not called here.
    pub fn into_host(self) -> (r: Result<HostCall, Error>)
        ensures
            r matches Ok(call) && {
                &&& stands_for(call.cmd, self@.command)
                &&& stands_for(call.args, self@.args)
                &&& stands_for(call.headers, self@.headers)
            },
    {
        let (cmd, args, opts) = self.into_parts();
        let cmd = match cmd.into_js() {
            Ok(cmd) => cmd,
            // A name is text or a handle, and neither can fail to cross.
            Err(_) => vstd::pervasive::unreached(),
        };
        let args = match args.into_js() {
            Ok(args) => args,
            Err(raw) => { return Err(Error::Args(TransportValue::Handle(raw))); },
        };
        let headers = match opts.headers().into_js() {
            Ok(headers) => headers,
            Err(raw) => { return Err(Error::Headers(TransportValue::Handle(raw))); },
        };
        Ok(HostCall { cmd, args, headers })
    }
}

/// An emission, made of host values: what the host's call is handed.
pub struct HostEmit {
    /// The command, as the host's router knows it.
    pub cmd: JsValue,
    /// The name of the event.
    pub event: JsValue,
    /// The payload.
    pub payload: JsValue,
    /// The number of the target.
    pub kind: u32,
    /// The label of the target, or the host's `undefined`.
    pub label: JsValue,
}

impl EmitCall {
    /// Makes the host values of the call that emits an event.
    ///
    /// The result is always `Ok`, as that of `into_js` is. Event, payload
    /// and label are the arguments of the call: were the serializer to raise
    /// on one of them all the same, the error would be one of the arguments.
    /// The host is not called here.
    pub fn into_host(self) -> (r: Result<HostEmit, Error>)
        ensures
            r matches Ok(call) && {
                &&& content(call.cmd) == Content::Text(self.command.path_text())
                &&& stands_for(call.event, self.event@)
                &&& stands_for(call.payload, self.payload@)
                &&& call.kind == self.kind
                &&& stands_for(call.label, self.label@)
            },
    {
        let kind = self.kind;
        let cmd = text(self.command.path());
        let event = match self.event.into_js() {
            Ok(event) => event,
            Err(raw) => { return Err(Error::Args(TransportValue::Handle(raw))); },
        };
        let payload = match self.payload.into_js() {
            Ok(payload) => payload,
            Err(raw) => { return Err(Error::Args(TransportValue::Handle(raw))); },
        };
        let label = match self.label.into_js() {
            Ok(label) => label,
            Err(raw) => { return Err(Error::Args(TransportValue::Handle(raw))); },
        };
        Ok(HostEmit { cmd, event, payload, kind, label })
    }
}

} // verus!
