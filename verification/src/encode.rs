//! Structured data as arguments and as headers.

use crate::error::Error;
use crate::invoke::{Options, ToArgs};
use crate::value::{Content, TransportValue};
use vstd::prelude::*;

verus! {

/// Data that can be written as a transport value, or fails to be with a raw
/// value that says why.
///
/// This is all that the library asks of a serializer: any one will do that
/// turns a structure into a transport value.
pub trait Encode: Sized {
    /// What the encoding gives: the value on the host's side, or the raw
    /// value that it fails with.
    spec fn encoded(self) -> Result<Content, TransportValue>;

    /// Encodes the data.
    fn encode(self) -> (r: Result<TransportValue, TransportValue>)
        ensures
            match self.encoded() {
                Ok(content) => r matches Ok(value) && value@ == content,
                Err(raw) => r == Err::<TransportValue, TransportValue>(raw),
            },
    ;
}

/// No data is the host's `undefined`.
impl Encode for () {
    open spec fn encoded(self) -> Result<Content, TransportValue> {
        Ok(Content::Undefined)
    }

    fn encode(self) -> (r: Result<TransportValue, TransportValue>) {
        Ok(TransportValue::Undefined)
    }
}

/// Text is a string of the host.
impl Encode for &str {
    open spec fn encoded(self) -> Result<Content, TransportValue> {
        Ok(Content::Text(self@))
    }

    fn encode(self) -> (r: Result<TransportValue, TransportValue>) {
        Ok(TransportValue::Text(self.to_owned()))
    }
}

/// A transport value that was built beforehand is taken as it is.
impl Encode for TransportValue {
    open spec fn encoded(self) -> Result<Content, TransportValue> {
        Ok(self@)
    }

    fn encode(self) -> (r: Result<TransportValue, TransportValue>) {
        Ok(self)
    }
}

/// What a serializer returned is taken as it is.
impl Encode for Result<TransportValue, TransportValue> {
    open spec fn encoded(self) -> Result<Content, TransportValue> {
        match self {
            Ok(value) => Ok(value@),
            Err(raw) => Err(raw),
        }
    }

    fn encode(self) -> (r: Result<TransportValue, TransportValue>) {
        self
    }
}

/// Encoded data, ready to be the arguments of a call.
#[derive(Debug, PartialEq)]
pub struct Data(TransportValue);

impl View for Data {
    type V = Content;

    closed spec fn view(&self) -> Content {
        self.0@
    }
}

impl ToArgs for Data {
    open spec fn args_content(self) -> Content {
        self@
    }

    fn to_args(self) -> (v: TransportValue) {
        self.0
    }
}

/// Arbitrary serializable data for the
/// [`with_args`](crate::invoke::Invoke::with_args) function.
///
/// Returns an [error](Error) if serialization fails: one of the arguments,
/// with the raw value that the serializer failed with.
pub fn args<T: Encode>(data: T) -> (r: Result<Data, Error>)
    ensures
        match data.encoded() {
            Ok(content) => r matches Ok(encoded) && encoded@ == content,
            Err(raw) => r == Err::<Data, Error>(Error::Args(raw)),
        },
{
    match data.encode() {
        Ok(value) => Ok(Data(value)),
        Err(raw) => Err(Error::Args(raw)),
    }
}

/// The pairs of text as they stand in a slice, each by its view.
pub open spec fn pairs_view(pairs: Seq<(&str, &str)>) -> Seq<(Seq<char>, Seq<char>)> {
    Seq::new(pairs.len(), |i: int| (pairs[i].0@, pairs[i].1@))
}

/// The fields of a record as they stand in a slice, each by its view.
pub open spec fn record_view(fields: Seq<(&'static str, &str)>) -> Seq<(Seq<char>, Seq<char>)> {
    Seq::new(fields.len(), |i: int| (fields[i].0@, fields[i].1@))
}

impl Options {
    /// Headers from the entries of a map, in the order in which the map
    /// yields them. They cross as a keyed map of the host; this library
    /// promises no order but the one it was given.
    pub fn from_map(entries: &[(&str, &str)]) -> (r: Result<Options, Error>)
        ensures
            r matches Ok(opts) && opts@ == Content::Table(pairs_view(entries@)),
    {
        let mut held: Vec<(String, String)> = Vec::new();
        let mut i: usize = 0;
        while i < entries.len()
            invariant
                i <= entries.len(),
                held@.len() == i,
                forall|j: int|
                    0 <= j < i ==> (#[trigger] held@[j]).0@ == entries@[j].0@ && held@[j].1@
                        == entries@[j].1@,
            decreases entries.len() - i,
        {
            let (key, value) = entries[i];
            held.push((key.to_owned(), value.to_owned()));
            i += 1;
        }
        let headers = TransportValue::Table(held);
        proof {
            assert(crate::value::entries_view(held@) =~= pairs_view(entries@));
        }
        Ok(Options::with_headers(headers))
    }

    /// Headers from the fields of a record, in the order given. They cross
    /// as a plain object of the host on which the fields were set in that
    /// order.
    pub fn from_record(fields: &[(&'static str, &str)]) -> (r: Result<Options, Error>)
        ensures
            r matches Ok(opts) && opts@ == Content::Record(record_view(fields@)),
    {
        let mut held: Vec<(&'static str, String)> = Vec::new();
        let mut i: usize = 0;
        while i < fields.len()
            invariant
                i <= fields.len(),
                held@.len() == i,
                forall|j: int|
                    0 <= j < i ==> (#[trigger] held@[j]).0@ == fields@[j].0@ && held@[j].1@
                        == fields@[j].1@,
            decreases fields.len() - i,
        {
            let (key, value) = fields[i];
            held.push((key, value.to_owned()));
            i += 1;
        }
        let headers = TransportValue::Record(held);
        proof {
            assert(crate::value::fields_view(held@) =~= record_view(fields@));
        }
        Ok(Options::with_headers(headers))
    }
}

} // verus!
