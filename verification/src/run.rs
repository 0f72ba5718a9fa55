//! A whole call, from its first attempt to its end, played against a list
//! of what the attempts come to; and what holds of every such call.

use vstd::prelude::*;
use dbus::Message;
use crate::api::{DBusApi, DBusApiView};
use crate::call::{RemoteCall, RemoteCallView};
use crate::error::{
    call_failure_text, call_failure_text_names_target, error_message_text, occurs_in, BusError,
    CallError, CallErrorView, ErrorKind,
};
use crate::retry::{
    is_transient, next_step, retries_exhausted, settled_view, transient_failure, Attempt,
    RetryState, Step, StepView, BACKOFF_SECONDS, RETRIES_ALLOWED,
};

verus! {

/// A whole call as contracts see it: how it ended, if it did, after how
/// many attempts and how many pauses.
pub struct RunView {
    pub outcome: Option<Result<Message, CallErrorView>>,
    pub attempts: nat,
    pub pauses: nat,
}

/// A whole call played against a list of attempts: how it ended, if the
/// list was long enough for it to end, how many attempts it used and how
/// many pauses it asked for.
#[derive(Debug)]
pub struct RetryRun {
    pub outcome: Option<Result<Message, CallError>>,
    pub attempts: usize,
    pub pauses: usize,
}

impl View for RetryRun {
    type V = RunView;

    open spec fn view(&self) -> RunView {
        RunView {
            outcome: settled_view(self.outcome),
            attempts: self.attempts as nat,
            pauses: self.pauses as nat,
        }
    }
}

/// The course of a call that has `retries` failed attempts behind it and
/// meets `attempts`, one after the other, until one of them ends it.
/// Attempts after the one that ends the call are never made. Where the list
/// ends first, the call has no outcome yet.
pub open spec fn run_from<A>(
    api: DBusApiView,
    call: RemoteCallView<A>,
    retries: nat,
    attempts: Seq<Attempt>,
) -> RunView
    decreases attempts.len(),
{
    if attempts.len() == 0 {
        RunView { outcome: None, attempts: 0, pauses: 0 }
    } else {
        match next_step(api, call, retries, attempts[0]) {
            StepView::Return(reply) => RunView { outcome: Some(Ok(reply)), attempts: 1, pauses: 0 },
            StepView::Fail(error) => RunView { outcome: Some(Err(error)), attempts: 1, pauses: 0 },
            StepView::Retry(count) => {
                let rest = run_from(api, call, count, attempts.drop_first());
                RunView {
                    outcome: rest.outcome,
                    attempts: (rest.attempts + 1) as nat,
                    pauses: (rest.pauses + 1) as nat,
                }
            },
        }
    }
}

impl DBusApi {
    /// Plays `call` against `attempts`, taken in their order as what
    /// each attempt in turn comes to: the loop of a call, with the bus
    /// replaced by a list. It stops at the first attempt that ends the call
    /// and leaves the rest of the list alone.
    pub fn call_with_args_retry<A>(&self, call: &RemoteCall<A>, attempts: Vec<Attempt>) -> (run:
        RetryRun)
        ensures
            run@ == run_from(self@, call@, 0, attempts@),
    {
        let mut left = attempts;
        let mut state = RetryState::new();
        let mut used: usize = 0;
        while left.len() > 0
            invariant
                used == state@,
                used < RETRIES_ALLOWED,
                run_from(self@, call@, 0, attempts@) == (RunView {
                    outcome: run_from(self@, call@, state@, left@).outcome,
                    attempts: (run_from(self@, call@, state@, left@).attempts + used) as nat,
                    pauses: (run_from(self@, call@, state@, left@).pauses + used) as nat,
                }),
            decreases left.len(),
        {
            let ghost before = left@;
            let attempt = left.remove(0);
            assert(left@ == before.drop_first());
            match self.after_attempt(call, state, attempt) {
                Step::Return(reply) => {
                    return RetryRun { outcome: Some(Ok(reply)), attempts: used + 1, pauses: used };
                },
                Step::Fail(error) => {
                    return RetryRun { outcome: Some(Err(error)), attempts: used + 1, pauses: used };
                },
                Step::Retry(next) => {
                    state = next;
                    used = used + 1;
                },
            }
        }
        RetryRun { outcome: None, attempts: used, pauses: used }
    }
}

/// Where every attempt fails with a name of the retry set, a call makes
/// `RETRIES_ALLOWED` attempts in all, pauses between each two of them, and
/// ends as `RetriesExhausted`. Attempts beyond those are not made.
pub proof fn transient_failures_exhaust_the_retries<A>(
    api: DBusApiView,
    call: RemoteCallView<A>,
    retries: nat,
    attempts: Seq<Attempt>,
)
    requires
        retries < RETRIES_ALLOWED,
        attempts.len() >= RETRIES_ALLOWED - retries,
        forall|i: int| 0 <= i < RETRIES_ALLOWED - retries ==> transient_failure(api, attempts[i]),
    ensures
        run_from(api, call, retries, attempts) == (RunView {
            outcome: Some(Err(retries_exhausted(call))),
            attempts: (RETRIES_ALLOWED - retries) as nat,
            pauses: (RETRIES_ALLOWED - retries - 1) as nat,
        }),
    decreases RETRIES_ALLOWED - retries,
{
    assert(transient_failure(api, attempts[0]));
    if retries + 1 < RETRIES_ALLOWED {
        let rest = attempts.drop_first();
        assert forall|i: int| 0 <= i < RETRIES_ALLOWED - (retries + 1) implies transient_failure(
            api,
            rest[i],
        ) by {
            assert(rest[i] == attempts[i + 1]);
        }
        transient_failures_exhaust_the_retries(api, call, retries + 1, rest);
    }
}

/// A failure in sending whose name is not of the retry set ends the call
/// at once: no pause, no further attempt, and a `PermanentCall` failure
/// whose message holds the interface, the method and the path of the call.
pub proof fn permanent_failure_ends_the_call<A>(
    api: DBusApiView,
    call: RemoteCallView<A>,
    retries: nat,
    attempts: Seq<Attempt>,
    error: BusError,
)
    requires
        attempts.len() > 0,
        attempts[0] == Attempt::NotSent(error),
        !is_transient(api.retry_names, error@),
    ensures
        run_from(api, call, retries, attempts) == (RunView {
            outcome: Some(
                Err(
                    CallErrorView {
                        kind: ErrorKind::PermanentCall,
                        message: call_failure_text(
                            call.interface,
                            call.method,
                            call.path,
                            error_message_text(error@),
                        ),
                    },
                ),
            ),
            attempts: 1,
            pauses: 0,
        }),
        occurs_in(
            call.interface,
            call_failure_text(call.interface, call.method, call.path, error_message_text(error@)),
        ),
        occurs_in(
            call.method,
            call_failure_text(call.interface, call.method, call.path, error_message_text(error@)),
        ),
        occurs_in(
            call.path,
            call_failure_text(call.interface, call.method, call.path, error_message_text(error@)),
        ),
{
    call_failure_text_names_target(
        call.interface,
        call.method,
        call.path,
        error_message_text(error@),
    );
}

/// A message that could not be made ends the call at once, as a
/// `MessageBuild` failure, whatever the retry names are.
pub proof fn build_failure_ends_the_call<A>(
    api: DBusApiView,
    call: RemoteCallView<A>,
    retries: nat,
    attempts: Seq<Attempt>,
    cause: String,
)
    requires
        attempts.len() > 0,
        attempts[0] == Attempt::NotBuilt(cause),
    ensures
        run_from(api, call, retries, attempts) == (RunView {
            outcome: Some(
                Err(
                    CallErrorView {
                        kind: ErrorKind::MessageBuild,
                        message: call_failure_text(
                            call.interface,
                            call.method,
                            call.path,
                            cause@,
                        ),
                    },
                ),
            ),
            attempts: 1,
            pauses: 0,
        }),
{
}

/// A reply on attempt `k`, after `k - 1` failures with names of the retry
/// set, is what the call returns: it made `k` attempts and `k - 1` pauses,
/// and makes no attempt after that one.
pub proof fn reply_ends_the_call<A>(
    api: DBusApiView,
    call: RemoteCallView<A>,
    retries: nat,
    attempts: Seq<Attempt>,
    k: nat,
    reply: Message,
)
    requires
        1 <= k,
        retries + k <= RETRIES_ALLOWED,
        attempts.len() >= k,
        forall|i: int| 0 <= i < k - 1 ==> transient_failure(api, attempts[i]),
        attempts[k - 1] == Attempt::Reply(reply),
    ensures
        run_from(api, call, retries, attempts) == (RunView {
            outcome: Some(Ok(reply)),
            attempts: k,
            pauses: (k - 1) as nat,
        }),
    decreases k,
{
    if k > 1 {
        assert(transient_failure(api, attempts[0]));
        let rest = attempts.drop_first();
        assert forall|i: int| 0 <= i < k - 2 implies transient_failure(api, rest[i]) by {
            assert(rest[i] == attempts[i + 1]);
        }
        assert(rest[k - 2] == attempts[k - 1]);
        reply_ends_the_call(api, call, retries + 1, rest, (k - 1) as nat, reply);
    }
}

/// No call makes more than `RETRIES_ALLOWED` attempts, whatever the
/// attempts come to, and it pauses only between two attempts or before
/// one that is still to come.
pub proof fn attempts_are_bounded<A>(
    api: DBusApiView,
    call: RemoteCallView<A>,
    retries: nat,
    attempts: Seq<Attempt>,
)
    requires
        retries < RETRIES_ALLOWED,
    ensures
        run_from(api, call, retries, attempts).attempts <= RETRIES_ALLOWED - retries,
        run_from(api, call, retries, attempts).attempts <= attempts.len(),
        run_from(api, call, retries, attempts).pauses <= run_from(
            api,
            call,
            retries,
            attempts,
        ).attempts,
        run_from(api, call, retries, attempts).outcome is Some ==> run_from(
            api,
            call,
            retries,
            attempts,
        ).pauses + 1 == run_from(api, call, retries, attempts).attempts,
    decreases attempts.len(),
{
    if attempts.len() > 0 {
        if next_step(api, call, retries, attempts[0]) is Retry {
            attempts_are_bounded(api, call, retries + 1, attempts.drop_first());
        }
    }
}

/// The longest that a call can have taken: each attempt its full timeout,
/// each pause its full length, in seconds.
pub open spec fn longest_duration(run: RunView, timeout: nat) -> nat {
    run.attempts * timeout + run.pauses * BACKOFF_SECONDS as nat
}

/// A call never takes longer than `RETRIES_ALLOWED` times the timeout and
/// the pause together, whatever its attempts come to.
pub proof fn duration_is_bounded<A>(
    api: DBusApiView,
    call: RemoteCallView<A>,
    attempts: Seq<Attempt>,
)
    ensures
        longest_duration(run_from(api, call, 0, attempts), api.method_timeout as nat)
            <= RETRIES_ALLOWED * (api.method_timeout + BACKOFF_SECONDS),
{
    attempts_are_bounded(api, call, 0, attempts);
    let run = run_from(api, call, 0, attempts);
    let timeout = api.method_timeout as nat;
    assert(run.attempts * timeout <= 10 * timeout) by (nonlinear_arith)
        requires
            run.attempts <= 10,
    ;
}

} // verus!
