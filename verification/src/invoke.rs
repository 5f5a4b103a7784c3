//! Commands: the request that is built step by step, and what it is built
//! from.

use crate::error::Error;
use crate::string::ToStringValue;
use crate::value::{Content, TransportValue};
use vstd::prelude::*;
use vstd::slice::slice_to_vec;
use wasm_bindgen::JsValue;

verus! {

/// Types that can be represented as arguments.
pub trait ToArgs: Sized {
    /// What the arguments are on the host's side.
    spec fn args_content(self) -> Content;

    /// The arguments as a transport value.
    fn to_args(self) -> (v: TransportValue)
        ensures
            v@ == self.args_content(),
    ;
}

/// Bytes cross as a binary array of exactly these bytes, never as text.
impl ToArgs for &[u8] {
    open spec fn args_content(self) -> Content {
        Content::Bytes(self@)
    }

    fn to_args(self) -> (v: TransportValue) {
        TransportValue::Bytes(slice_to_vec(self))
    }
}

impl<const N: usize> ToArgs for &[u8; N] {
    open spec fn args_content(self) -> Content {
        Content::Bytes(self@)
    }

    fn to_args(self) -> (v: TransportValue) {
        self.as_slice().to_args()
    }
}

impl ToArgs for Vec<u8> {
    open spec fn args_content(self) -> Content {
        Content::Bytes(self@)
    }

    fn to_args(self) -> (v: TransportValue) {
        TransportValue::Bytes(self)
    }
}

/// A transport value that was built beforehand is handed on unchanged.
impl ToArgs for TransportValue {
    open spec fn args_content(self) -> Content {
        self@
    }

    fn to_args(self) -> (v: TransportValue)
        ensures
            v == self,
    {
        self
    }
}

/// An object that already lives with the host is handed on as it is.
impl ToArgs for JsValue {
    open spec fn args_content(self) -> Content {
        Content::Handle(self)
    }

    fn to_args(self) -> (v: TransportValue) {
        TransportValue::Handle(self)
    }
}

/// Invoke options.
///
/// To pass options to an invoke call, use the
/// [`with_options`](Invoke::with_options) method. Options hold at most the
/// headers of the call. Where there are none, the headers are the host's
/// `undefined`, so that the host can tell "no headers given" from "an empty
/// set of headers".
#[derive(Debug, PartialEq)]
pub struct Options {
    pub(crate) headers: TransportValue,
}

impl View for Options {
    type V = Content;

    /// What the headers are on the host's side.
    closed spec fn view(&self) -> Content {
        self.headers@
    }
}

impl Options {
    /// Options without headers.
    pub fn empty() -> (opts: Options)
        ensures
            opts@ == Content::Undefined,
    {
        Options { headers: TransportValue::Undefined }
    }

    /// Options with these headers, already encoded.
    pub(crate) fn with_headers(headers: TransportValue) -> (opts: Options)
        ensures
            opts@ == headers@,
    {
        Options { headers }
    }

    /// Returns options headers.
    pub fn headers(self) -> (headers: TransportValue)
        ensures
            headers@ == self@,
    {
        self.headers
    }
}

/// Types that can be converted into headers.
pub trait IntoHeaders: Sized {
    /// What the conversion gives: the headers on the host's side, or the
    /// error that it fails with.
    spec fn headers_outcome(self) -> Result<Content, Error>;

    /// Converts the value into headers.
    fn into_headers(self) -> (r: Result<TransportValue, Error>)
        ensures
            match self.headers_outcome() {
                Ok(content) => r matches Ok(headers) && headers@ == content,
                Err(error) => r == Err::<TransportValue, Error>(error),
            },
    ;

    /// Converts the value into [options](Options).
    fn into_options(self) -> (r: Result<Options, Error>)
        ensures
            match self.headers_outcome() {
                Ok(content) => r matches Ok(opts) && opts@ == content,
                Err(error) => r == Err::<Options, Error>(error),
            },
    {
        match self.into_headers() {
            Ok(headers) => Ok(Options::with_headers(headers)),
            Err(error) => Err(error),
        }
    }
}

/// Headers that were built beforehand are handed on unchanged.
impl IntoHeaders for TransportValue {
    open spec fn headers_outcome(self) -> Result<Content, Error> {
        Ok(self@)
    }

    fn into_headers(self) -> (r: Result<TransportValue, Error>) {
        Ok(self)
    }
}

/// A headers object that already lives with the host is handed on as it is.
impl IntoHeaders for JsValue {
    open spec fn headers_outcome(self) -> Result<Content, Error> {
        Ok(Content::Handle(self))
    }

    fn into_headers(self) -> (r: Result<TransportValue, Error>) {
        Ok(TransportValue::Handle(self))
    }
}

/// Types whose encoding as headers may fail with a raw value.
pub trait ToHeaders: Sized {
    /// What the encoding gives: the headers on the host's side, or the raw
    /// value that it fails with.
    spec fn encoded_headers(self) -> Result<Content, TransportValue>;

    /// Encodes the value as headers.
    fn to_headers(self) -> (r: Result<TransportValue, TransportValue>)
        ensures
            match self.encoded_headers() {
                Ok(content) => r matches Ok(headers) && headers@ == content,
                Err(raw) => r == Err::<TransportValue, TransportValue>(raw),
            },
    ;

    /// Encodes the value as the headers of new [options](Options). A failure
    /// is marked as one of the headers, with its raw value kept.
    fn to_options(self) -> (r: Result<Options, Error>)
        ensures
            match self.encoded_headers() {
                Ok(content) => r matches Ok(opts) && opts@ == content,
                Err(raw) => r == Err::<Options, Error>(Error::Headers(raw)),
            },
    {
        match self.to_headers() {
            Ok(headers) => Ok(Options::with_headers(headers)),
            Err(raw) => Err(Error::Headers(raw)),
        }
    }
}

/// What an encoder returned is taken as it is.
impl ToHeaders for Result<TransportValue, TransportValue> {
    open spec fn encoded_headers(self) -> Result<Content, TransportValue> {
        match self {
            Ok(headers) => Ok(headers@),
            Err(raw) => Err(raw),
        }
    }

    fn to_headers(self) -> (r: Result<TransportValue, TransportValue>) {
        self
    }
}

/// A request as the host will see it.
pub struct Request {
    /// The name of the command.
    pub command: Content,
    /// The arguments: `Undefined` where none were given.
    pub args: Content,
    /// The headers: `Undefined` where none were given.
    pub headers: Content,
}

/// A type used to configure an [invoke](invoke) operation.
///
/// Each step takes the request and returns the next one. The request is
/// used up when the call is made: the same request cannot be sent twice, nor
/// changed once it was sent.
#[derive(Debug, PartialEq)]
pub struct Invoke {
    cmd: TransportValue,
    args: TransportValue,
    opts: Options,
}

impl View for Invoke {
    type V = Request;

    closed spec fn view(&self) -> Request {
        Request { command: self.cmd@, args: self.args@, headers: self.opts@ }
    }
}

/// Invokes a command on the backend.
///
/// This function returns the request, which can then be given arguments and
/// options: see [`with_args`](Invoke::with_args) and
/// [`with_options`](Invoke::with_options). Until they are called, the
/// arguments and the headers are the host's `undefined`.
pub fn invoke<C: ToStringValue>(cmd: C) -> (r: Invoke)
    ensures
        r@ == (Request {
            command: cmd.string_content(),
            args: Content::Undefined,
            headers: Content::Undefined,
        }),
{
    let cmd = cmd.to_string_value();
    let args = TransportValue::Undefined;
    let opts = Options::empty();
    Invoke { cmd, args, opts }
}

/// Invokes a command with arguments on the backend: short for
/// [`invoke`] and then [`with_args`](Invoke::with_args).
pub fn invoke_with_args<C: ToStringValue, A: ToArgs>(cmd: C, args: A) -> (r: Invoke)
    ensures
        r@ == (Request {
            command: cmd.string_content(),
            args: args.args_content(),
            headers: Content::Undefined,
        }),
{
    invoke(cmd).with_args(args)
}

/// Invokes a command with arguments and options on the backend: short for
/// [`invoke`], [`with_args`](Invoke::with_args) and then
/// [`with_options`](Invoke::with_options).
pub fn invoke_with_options<C: ToStringValue, A: ToArgs>(cmd: C, args: A, opts: Options) -> (r:
    Invoke)
    ensures
        r@ == (Request {
            command: cmd.string_content(),
            args: args.args_content(),
            headers: opts@,
        }),
{
    invoke(cmd).with_args(args).with_options(opts)
}

impl Invoke {
    #[verifier::type_invariant]
    spec fn named(self) -> bool {
        self.cmd is Text || self.cmd is Handle
    }

    /// Invokes a command with arguments on the backend.
    ///
    /// The arguments replace those that the request had; the command and
    /// the options stay.
    pub fn with_args<T: ToArgs>(self, args: T) -> (r: Invoke)
        ensures
            r@ == (Request { args: args.args_content(), ..self@ }),
    {
        proof {
            use_type_invariant(&self);
        }
        let cmd = self.cmd;
        let args = args.to_args();
        let opts = self.opts;
        Invoke { cmd, args, opts }
    }

    /// Invokes a command with options on the backend.
    ///
    /// The options replace those that the request had; the command and the
    /// arguments stay.
    pub fn with_options(self, opts: Options) -> (r: Invoke)
        ensures
            r@ == (Request { headers: opts@, ..self@ }),
    {
        proof {
            use_type_invariant(&self);
        }
        Invoke { cmd: self.cmd, args: self.args, opts }
    }

    /// Takes the request apart: the command, the arguments and the options,
    /// as they will be handed to the host.
    pub fn into_parts(self) -> (parts: (TransportValue, TransportValue, Options))
        ensures
            parts.0@ == self@.command,
            parts.1@ == self@.args,
            parts.2@ == self@.headers,
            parts.0 is Text || parts.0 is Handle,
    {
        proof {
            use_type_invariant(&self);
        }
        (self.cmd, self.args, self.opts)
    }
}

/// What a call that the host has settled gives to the caller: the host's
/// value as it is, or its error, wrapped with the raw value kept.
pub fn settle(outcome: Result<TransportValue, TransportValue>) -> (r: Result<TransportValue, Error>)
    ensures
        r == match outcome {
            Ok(value) => Ok::<TransportValue, Error>(value),
            Err(raw) => Err::<TransportValue, Error>(Error::Invoke(raw)),
        },
{
    match outcome {
        Ok(value) => Ok(value),
        Err(raw) => Err(Error::Invoke(raw)),
    }
}

} // verus!
