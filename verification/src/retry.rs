//! The retry policy of a call, as a state machine: the caller makes each
//! attempt and waits through each pause, and is told here what comes next.

use vstd::prelude::*;
use dbus::Message;
use crate::api::{DBusApi, DBusApiView};
use crate::call::{RemoteCall, RemoteCallView};
use crate::error::{
    call_failure_text, error_message_text, get_error_message, retries_exhausted_text, BusError,
    BusErrorView, CallError, CallErrorView, ErrorKind,
};

verus! {

/// The number of failed attempts after which a call is given up.
pub const RETRIES_ALLOWED: usize = 10;

/// Seconds to wait between a failed attempt and the next one. The pause
/// does not grow and has no jitter.
pub const BACKOFF_SECONDS: u64 = 1;

/// An error is transient when it has a name and the name is one of the
/// retry names.
pub open spec fn is_transient(retry_names: Seq<Seq<char>>, error: BusErrorView) -> bool {
    error.name matches Some(name) && retry_names.contains(name)
}

/// The kind of a failure in sending: transient or permanent.
pub open spec fn failure_kind(retry_names: Seq<Seq<char>>, error: BusErrorView) -> ErrorKind {
    if is_transient(retry_names, error) {
        ErrorKind::TransientCall
    } else {
        ErrorKind::PermanentCall
    }
}

/// What one attempt of a call came to.
#[derive(Debug)]
pub enum Attempt {
    /// The message was sent and this reply came back.
    Reply(Message),
    /// No message could be made; the text says why.
    NotBuilt(String),
    /// The message was made, but sending it failed with this error.
    NotSent(BusError),
}

/// What an attempt settles: a reply, a failure for good, or nothing yet.
/// The failure holds the bare cause.
pub open spec fn attempt_result(retry_names: Seq<Seq<char>>, attempt: Attempt) -> Option<
    Result<Message, CallErrorView>,
> {
    match attempt {
        Attempt::Reply(reply) => Some(Ok(reply)),
        Attempt::NotBuilt(cause) => Some(
            Err(CallErrorView { kind: ErrorKind::MessageBuild, message: cause@ }),
        ),
        Attempt::NotSent(error) => if is_transient(retry_names, error@) {
            None
        } else {
            Some(
                Err(
                    CallErrorView {
                        kind: ErrorKind::PermanentCall,
                        message: error_message_text(error@),
                    },
                ),
            )
        },
    }
}

/// A result whose failure is taken by its view.
pub open spec fn result_view<T>(result: Result<T, CallError>) -> Result<T, CallErrorView> {
    match result {
        Ok(value) => Ok(value),
        Err(error) => Err(error@),
    }
}

/// A settled or unsettled attempt whose failure is taken by its view.
pub open spec fn settled_view<T>(settled: Option<Result<T, CallError>>) -> Option<
    Result<T, CallErrorView>,
> {
    match settled {
        Some(result) => Some(result_view(result)),
        None => None,
    }
}

/// How many failed attempts a call has behind it. Always below
/// `RETRIES_ALLOWED`: a call that reaches the limit is over.
#[derive(Debug)]
pub struct RetryState {
    retries: usize,
}

impl View for RetryState {
    type V = nat;

    closed spec fn view(&self) -> nat {
        self.retries as nat
    }
}

impl RetryState {
    #[verifier::type_invariant]
    spec fn below_limit(self) -> bool {
        self.retries < RETRIES_ALLOWED
    }

    /// The state of a call before its first attempt.
    pub fn new() -> (state: RetryState)
        ensures
            state@ == 0,
    {
        RetryState { retries: 0 }
    }

    /// The number of failed attempts so far.
    pub fn retries(&self) -> (count: usize)
        ensures
            count == self@,
            count < RETRIES_ALLOWED,
    {
        proof {
            use_type_invariant(self);
        }
        self.retries
    }
}

/// A step as contracts see it.
pub enum StepView {
    Return(Message),
    Fail(CallErrorView),
    Retry(nat),
}

/// What the caller does after an attempt.
#[derive(Debug)]
pub enum Step {
    /// Hand this reply to whoever made the call. Nothing more is sent.
    Return(Message),
    /// Give the call up with this failure. Nothing more is sent.
    Fail(CallError),
    /// Wait `BACKOFF_SECONDS`, then make the next attempt and come back
    /// with this state.
    Retry(RetryState),
}

impl View for Step {
    type V = StepView;

    open spec fn view(&self) -> StepView {
        match *self {
            Step::Return(reply) => StepView::Return(reply),
            Step::Fail(error) => StepView::Fail(error@),
            Step::Retry(state) => StepView::Retry(state@),
        }
    }
}

/// The failure of `call` for the bare cause `cause`: same kind, and a
/// message that names the interface, the method and the path.
pub open spec fn call_failure<A>(call: RemoteCallView<A>, cause: CallErrorView) -> CallErrorView {
    CallErrorView {
        kind: cause.kind,
        message: call_failure_text(call.interface, call.method, call.path, cause.message),
    }
}

/// The failure of `call` when its retries have run out.
pub open spec fn retries_exhausted<A>(call: RemoteCallView<A>) -> CallErrorView {
    call_failure(
        call,
        CallErrorView { kind: ErrorKind::RetriesExhausted, message: retries_exhausted_text() },
    )
}

/// The step that follows `attempt` for a call with `retries` failed
/// attempts behind it.
///
/// A reply is returned. A failure for good ends the call. A transient
/// failure counts as one more retry: the call goes on while the count is
/// below `RETRIES_ALLOWED` and is given up when it gets there.
pub open spec fn next_step<A>(
    api: DBusApiView,
    call: RemoteCallView<A>,
    retries: nat,
    attempt: Attempt,
) -> StepView {
    match attempt_result(api.retry_names, attempt) {
        Some(Ok(reply)) => StepView::Return(reply),
        Some(Err(cause)) => StepView::Fail(call_failure(call, cause)),
        None => if retries + 1 >= RETRIES_ALLOWED {
            StepView::Fail(retries_exhausted(call))
        } else {
            StepView::Retry((retries + 1) as nat)
        },
    }
}

impl DBusApi {
    /// Sorts a failure in sending: `TransientCall` where the error has a
    /// name and the name is one of the retry names, `PermanentCall` in
    /// every other case.
    pub fn classify(&self, error: &BusError) -> (kind: ErrorKind)
        ensures
            kind == failure_kind(self@.retry_names, error@),
    {
        match &error.name {
            None => ErrorKind::PermanentCall,
            Some(name) => {
                let names = self.method_retry_error_names();
                let mut i: usize = 0;
                while i < names.len()
                    invariant
                        i <= names.len(),
                        error@.name == Some(name@),
                        names.deep_view() == self@.retry_names,
                        forall|j: int| 0 <= j < i ==> (#[trigger] names.deep_view()[j]) != name@,
                    decreases names.len() - i,
                {
                    if names[i] == *name {
                        assert(names.deep_view()[i as int] == name@);
                        return ErrorKind::TransientCall;
                    }
                    i = i + 1;
                }
                ErrorKind::PermanentCall
            },
        }
    }

    /// Looks at what sending a message came to. A reply is passed on. An
    /// error with a name of the retry set settles nothing: the answer is
    /// `None`, and the call is to be tried again. Any other error is a
    /// failure for good, with the words of the error as its message.
    pub fn send_message_checked(&self, outcome: Result<Message, BusError>) -> (settled: Option<
        Result<Message, CallError>,
    >)
        ensures
            settled_view(settled) == (match outcome {
                Ok(reply) => attempt_result(self@.retry_names, Attempt::Reply(reply)),
                Err(error) => attempt_result(self@.retry_names, Attempt::NotSent(error)),
            }),
    {
        match outcome {
            Ok(reply) => Some(Ok(reply)),
            Err(error) => {
                match self.classify(&error) {
                    ErrorKind::TransientCall => None,
                    kind => Some(Err(CallError::new(kind, get_error_message(&error)))),
                }
            },
        }
    }

    /// Looks at what one attempt came to. A message that could not be made
    /// is a failure for good and is not tried again; what was sent is
    /// judged by `send_message_checked`.
    pub fn create_and_send_message(&self, attempt: Attempt) -> (settled: Option<
        Result<Message, CallError>,
    >)
        ensures
            settled_view(settled) == attempt_result(self@.retry_names, attempt),
    {
        match attempt {
            Attempt::Reply(reply) => self.send_message_checked(Ok(reply)),
            Attempt::NotBuilt(cause) => Some(
                Err(CallError::new(ErrorKind::MessageBuild, cause.as_str())),
            ),
            Attempt::NotSent(error) => self.send_message_checked(Err(error)),
        }
    }

    /// Decides what follows an attempt of `call` that has `state` behind
    /// it: the reply, a failure whose message names the interface, the
    /// method and the path, or one more attempt after a pause.
    pub fn after_attempt<A>(&self, call: &RemoteCall<A>, state: RetryState, attempt: Attempt) -> (step:
        Step)
        ensures
            step@ == next_step(self@, call@, state@, attempt),
    {
        let retries: usize = state.retries();
        match self.create_and_send_message(attempt) {
            Some(Ok(reply)) => Step::Return(reply),
            Some(Err(cause)) => Step::Fail(
                CallError::call_failure(
                    cause.kind,
                    call.interface.as_str(),
                    call.method.as_str(),
                    call.path.as_str(),
                    cause.message.as_str(),
                ),
            ),
            None => {
                if retries + 1 == RETRIES_ALLOWED {
                    Step::Fail(
                        CallError::call_failure(
                            ErrorKind::RetriesExhausted,
                            call.interface.as_str(),
                            call.method.as_str(),
                            call.path.as_str(),
                            "method call failed after 10 retries",
                        ),
                    )
                } else {
                    Step::Retry(RetryState { retries: retries + 1 })
                }
            },
        }
    }
}

/// The attempt failed in sending, with an error whose name is one of the
/// retry names.
pub open spec fn transient_failure(api: DBusApiView, attempt: Attempt) -> bool {
    attempt matches Attempt::NotSent(error) && is_transient(api.retry_names, error@)
}

/// A failure with a name of the retry set costs exactly one retry: the
/// count goes up by one and the call goes on, until the count reaches
/// `RETRIES_ALLOWED` and the call is given up for want of retries.
pub proof fn transient_failure_costs_one_retry<A>(
    api: DBusApiView,
    call: RemoteCallView<A>,
    retries: nat,
    attempt: Attempt,
)
    requires
        retries < RETRIES_ALLOWED,
        transient_failure(api, attempt),
    ensures
        retries + 1 < RETRIES_ALLOWED ==> next_step(api, call, retries, attempt) == StepView::Retry(
            retries + 1,
        ),
        retries + 1 == RETRIES_ALLOWED ==> next_step(api, call, retries, attempt) == StepView::Fail(
            retries_exhausted(call),
        ),
{
}

/// A call is tried again after an attempt if and only if the attempt failed
/// in sending with a name of the retry set, and retries are left.
pub proof fn retried_iff_transient<A>(
    api: DBusApiView,
    call: RemoteCallView<A>,
    retries: nat,
    attempt: Attempt,
)
    ensures
        next_step(api, call, retries, attempt) is Retry <==> transient_failure(api, attempt)
            && retries + 1 < RETRIES_ALLOWED,
{
}

} // verus!
