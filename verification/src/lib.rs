//! A typed bridge from a sandboxed frontend module to the commands and
//! events of its host application.
//!
//! A call is built from typed parts and handed to the host as untyped
//! values. This library does the building, and proves what is built:
//!
//! - [`value`]: the values that can cross, and what each is on the host's
//!   side;
//! - [`string`]: names of commands and events;
//! - [`encode`]: structured data as arguments and as headers;
//! - [`invoke`]: the request for a command, built step by step;
//! - [`event`]: the emission of an event, and the encoding of its target;
//! - [`error`]: the error of a failed call, with its raw value;
//! - [`host`]: the host values of a finished request, made through the
//!   bindings to the host;
//! - [`laws`]: what holds of all of these together.
//!
//! The call itself, and the wait for its answer, are left to the caller: the
//! library hands out what is to be sent, and takes back what was answered.

pub mod encode;
pub mod error;
pub mod event;
pub mod host;
pub mod invoke;
pub mod laws;
pub mod string;
pub mod value;

pub use crate::encode::args;
pub use crate::error::Error;
pub use crate::event::{emit, EventTarget};
pub use crate::invoke::{invoke, Options};
pub use crate::string::ToStringValue;
pub use crate::value::{Content, TransportValue};
