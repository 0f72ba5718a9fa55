//! Failures of the client, as a closed set of kinds with a readable message.

use vstd::prelude::*;

verus! {

/// The ways in which a call, a property read or a decoding step can fail.
#[derive(Clone, Copy, Debug, PartialEq, Eq, Structural)]
pub enum ErrorKind {
    /// The call target (bus name, path, interface or method) is malformed,
    /// or no message could be made for it. Never retried.
    MessageBuild,
    /// The send failed with an error name of the retry set. Retried, and
    /// never handed to the caller.
    TransientCall,
    /// The largest number of retries was reached without a reply.
    RetriesExhausted,
    /// The send failed with an error name outside the retry set.
    PermanentCall,
    /// The read of a property failed on the bus.
    PropertyRead,
    /// A property was read, but its value has another shape than the one
    /// asked for.
    PropertyTypeMismatch,
    /// A reply did not hold the field or fields asked for.
    ResponseShape,
    /// A variant was no array of bytes or did not hold the type asked for,
    /// or a path was not valid UTF-8.
    VariantShape,
}

/// How loudly a failure is to be reported by whoever keeps the log.
#[derive(Clone, Copy, Debug, PartialEq, Eq, Structural)]
pub enum Severity {
    Debug,
    Warning,
    Error,
}

/// The severity that goes with each kind of failure: a transient failure is
/// only noted, a failed property read is a warning, all else is an error.
pub open spec fn severity_of(kind: ErrorKind) -> Severity {
    match kind {
        ErrorKind::TransientCall => Severity::Debug,
        ErrorKind::PropertyRead => Severity::Warning,
        _ => Severity::Error,
    }
}

impl ErrorKind {
    /// The severity at which a failure of this kind is reported.
    pub fn severity(&self) -> (s: Severity)
        ensures
            s == severity_of(*self),
    {
        match self {
            ErrorKind::TransientCall => Severity::Debug,
            ErrorKind::PropertyRead => Severity::Warning,
            _ => Severity::Error,
        }
    }
}

/// An error of the bus as contracts see it.
pub struct BusErrorView {
    pub name: Option<Seq<char>>,
    pub message: Option<Seq<char>>,
}

/// An error that the bus answered with: its symbolic name and its words
/// for a human reader, each of which may be missing.
#[derive(Clone, Debug, PartialEq, Eq)]
pub struct BusError {
    pub name: Option<String>,
    pub message: Option<String>,
}

impl View for BusError {
    type V = BusErrorView;

    open spec fn view(&self) -> BusErrorView {
        BusErrorView { name: self.name.deep_view(), message: self.message.deep_view() }
    }
}

/// The words of an error, or a fixed text where it has none.
pub open spec fn error_message_text(error: BusErrorView) -> Seq<char> {
    match error.message {
        Some(details) => details,
        None => "Undefined error message"@,
    }
}

/// The words of `error`, or `Undefined error message` where it has none.
pub fn get_error_message(error: &BusError) -> (text: &str)
    ensures
        text@ == error_message_text(error@),
{
    match &error.message {
        Some(details) => details.as_str(),
        None => "Undefined error message",
    }
}

/// A failure as contracts see it: its kind and the characters of its message.
pub struct CallErrorView {
    pub kind: ErrorKind,
    pub message: Seq<char>,
}

/// A failure: its kind, and a message for a human reader.
#[derive(Clone, Debug, PartialEq, Eq)]
pub struct CallError {
    pub kind: ErrorKind,
    pub message: String,
}

impl View for CallError {
    type V = CallErrorView;

    open spec fn view(&self) -> CallErrorView {
        CallErrorView { kind: self.kind, message: self.message@ }
    }
}

/// The message of a method call that failed for good:
/// `D-Bus '<interface>'::'<method>' method call failed on '<path>': <cause>`.
pub open spec fn call_failure_text(
    interface: Seq<char>,
    method: Seq<char>,
    path: Seq<char>,
    cause: Seq<char>,
) -> Seq<char> {
    "D-Bus '"@ + interface + "'::'"@ + method + "' method call failed on '"@ + path + "': "@
        + cause
}

/// The message of a property read that failed:
/// `D-Bus get '<interface>'::'<name>' property failed on '<path>': <details>`.
pub open spec fn property_failure_text(
    interface: Seq<char>,
    name: Seq<char>,
    path: Seq<char>,
    details: Seq<char>,
) -> Seq<char> {
    "D-Bus get '"@ + interface + "'::'"@ + name + "' property failed on '"@ + path + "': "@
        + details
}

/// The cause given when the retries ran out.
pub open spec fn retries_exhausted_text() -> Seq<char> {
    "method call failed after 10 retries"@
}

/// `needle` occurs in `hay` as a run of neighbouring characters.
pub open spec fn occurs_in(needle: Seq<char>, hay: Seq<char>) -> bool {
    exists|at: int|
        0 <= at && at + needle.len() <= hay.len() && #[trigger] hay.subrange(
            at,
            at + needle.len(),
        ) == needle
}

impl CallError {
    /// A failure of the given kind whose message is `message`.
    pub fn new(kind: ErrorKind, message: &str) -> (e: CallError)
        ensures
            e@ == (CallErrorView { kind, message: message@ }),
    {
        CallError { kind, message: String::from_str(message) }
    }

    /// A failure of the given kind whose message is `prefix` followed by
    /// `detail`.
    pub fn with_detail(kind: ErrorKind, prefix: &str, detail: &str) -> (e: CallError)
        ensures
            e@ == (CallErrorView { kind, message: prefix@ + detail@ }),
    {
        let mut message = String::from_str(prefix);
        message.append(detail);
        CallError { kind, message }
    }

    /// The failure of a method call on `path`, with the interface, the
    /// method, the path and the cause in its message.
    pub fn call_failure(
        kind: ErrorKind,
        interface: &str,
        method: &str,
        path: &str,
        cause: &str,
    ) -> (e: CallError)
        ensures
            e@ == (CallErrorView {
                kind,
                message: call_failure_text(interface@, method@, path@, cause@),
            }),
    {
        let mut message = String::from_str("D-Bus '");
        message.append(interface);
        message.append("'::'");
        message.append(method);
        message.append("' method call failed on '");
        message.append(path);
        message.append("': ");
        message.append(cause);
        CallError { kind, message }
    }

    /// The failure of a property read on `path`, with the interface, the
    /// property, the path and the details in its message.
    pub fn property_failure(
        kind: ErrorKind,
        interface: &str,
        name: &str,
        path: &str,
        details: &str,
    ) -> (e: CallError)
        ensures
            e@ == (CallErrorView {
                kind,
                message: property_failure_text(interface@, name@, path@, details@),
            }),
    {
        let mut message = String::from_str("D-Bus get '");
        message.append(interface);
        message.append("'::'");
        message.append(name);
        message.append("' property failed on '");
        message.append(path);
        message.append("': ");
        message.append(details);
        CallError { kind, message }
    }

    /// The severity at which this failure is reported.
    pub fn severity(&self) -> (s: Severity)
        ensures
            s == severity_of(self.kind),
    {
        self.kind.severity()
    }
}

/// The message of a failed method call names the interface, the method and
/// the path of the call, and ends with the cause.
pub proof fn call_failure_text_names_target(
    interface: Seq<char>,
    method: Seq<char>,
    path: Seq<char>,
    cause: Seq<char>,
)
    ensures
        occurs_in(interface, call_failure_text(interface, method, path, cause)),
        occurs_in(method, call_failure_text(interface, method, path, cause)),
        occurs_in(path, call_failure_text(interface, method, path, cause)),
        occurs_in(cause, call_failure_text(interface, method, path, cause)),
{
    let text = call_failure_text(interface, method, path, cause);
    let a = "D-Bus '"@.len() as int;
    let b = a + interface.len() + "'::'"@.len();
    let c = b + method.len() + "' method call failed on '"@.len();
    let d = c + path.len() + "': "@.len();
    assert(text.subrange(a, a + interface.len()) == interface);
    assert(text.subrange(b, b + method.len()) == method);
    assert(text.subrange(c, c + path.len()) == path);
    assert(text.subrange(d, d + cause.len()) == cause);
}

} // verus!
