//! A typed, retrying request and response client for a system message bus,
//! kept free of input and output: it decides, builds and decodes, and leaves
//! the connection to its caller.
//!
//! A caller that owns a connection drives a method call like this. It asks
//! the dispatcher for the call (`DBusApi::call_with_args`) and starts with a
//! fresh `RetryState`. For each attempt it makes the message
//! (`RemoteCall::create_message`), attaches the arguments, sends it, and
//! hands what came of it to `DBusApi::after_attempt` as an `Attempt`. The
//! `Step` that comes back says whether to return the reply, to give up with
//! a failure, or to wait `BACKOFF_SECONDS` and try again. The same course,
//! played against a list of attempts, is `DBusApi::call_with_args_retry`.
//!
//! A property read goes to the object that `DBusApi::with_path` names; what
//! the bus answered is made a `WireValue` and handed to `DBusApi::property`,
//! which coerces it to the type asked for.

#![allow(unused_imports)]

pub mod api;
pub mod call;
pub mod decode;
pub mod error;
pub mod path;
pub mod property;
pub mod retry;
pub mod run;
pub mod value;

pub use api::{DBusApi, DBusApiView, DEFAULT_TIMEOUT, MAX_TIMEOUT};
pub use call::{ObjectTarget, ObjectTargetView, RemoteCall, RemoteCallView};
pub use decode::{extract, variant_iter_to_vec_u8, VariantRead};
pub use error::{
    get_error_message, BusError, BusErrorView, CallError, CallErrorView, ErrorKind, Severity,
};
pub use path::{path_to_string, ObjectPath};
pub use retry::{Attempt, RetryState, Step, StepView, BACKOFF_SECONDS, RETRIES_ALLOWED};
pub use run::{RetryRun, RunView};
pub use value::{VariantTo, WireValue};
