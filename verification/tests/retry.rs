use dbus::Message;
use dbus_api::{
    get_error_message, Attempt, BusError, CallError, DBusApi, ErrorKind, RemoteCall, RetryState,
    Severity, Step, BACKOFF_SECONDS, RETRIES_ALLOWED,
};

const NO_REPLY: &str = "org.freedesktop.DBus.Error.NoReply";

fn dispatcher() -> DBusApi {
    DBusApi::new("org.example.Service".to_string(), vec![NO_REPLY.to_string()], Some(15))
}

fn ping(api: &DBusApi) -> RemoteCall<u8> {
    api.call("/test", "org.example.Iface", "Ping")
}

fn no_reply() -> Attempt {
    Attempt::NotSent(BusError {
        name: Some(NO_REPLY.to_string()),
        message: Some("Did not receive a reply".to_string()),
    })
}

fn access_denied() -> Attempt {
    Attempt::NotSent(BusError {
        name: Some("org.freedesktop.DBus.Error.AccessDenied".to_string()),
        message: Some("Rejected send message".to_string()),
    })
}

fn reply(token: u32) -> Message {
    Message::new_method_call("org.example.Service", "/test", "org.example.Iface", "Pong")
        .unwrap()
        .append1(token)
}

fn token_of(message: &Message) -> Option<u32> {
    message.get1()
}

#[test]
fn limits_of_the_policy() {
    assert_eq!(RETRIES_ALLOWED, 10);
    assert_eq!(BACKOFF_SECONDS, 1);
    assert_eq!(RetryState::new().retries(), 0);
}

#[test]
fn error_message_or_its_stand_in() {
    let with = BusError { name: None, message: Some("details".to_string()) };
    let without = BusError { name: None, message: None };
    assert_eq!(get_error_message(&with), "details");
    assert_eq!(get_error_message(&without), "Undefined error message");
}

#[test]
fn retry_names_decide_what_is_transient() {
    let api = DBusApi::new(
        "org.example.Service".to_string(),
        vec!["a.b.First".to_string(), "a.b.Second".to_string()],
        None,
    );
    let named = |name: &str| BusError { name: Some(name.to_string()), message: None };
    assert_eq!(api.classify(&named("a.b.First")), ErrorKind::TransientCall);
    assert_eq!(api.classify(&named("a.b.Second")), ErrorKind::TransientCall);
    assert_eq!(api.classify(&named("a.b.Third")), ErrorKind::PermanentCall);
    assert_eq!(api.classify(&named("a.b.Firs")), ErrorKind::PermanentCall);
    assert_eq!(api.classify(&named("")), ErrorKind::PermanentCall);
    let unnamed = BusError { name: None, message: Some("a.b.First".to_string()) };
    assert_eq!(api.classify(&unnamed), ErrorKind::PermanentCall);
}

#[test]
fn without_retry_names_nothing_is_transient() {
    let api = DBusApi::new("org.example.Service".to_string(), vec![], None);
    let error = BusError { name: Some(NO_REPLY.to_string()), message: None };
    assert_eq!(api.classify(&error), ErrorKind::PermanentCall);
}

#[test]
fn sent_message_with_reply_is_settled() {
    let settled = dispatcher().send_message_checked(Ok(reply(5)));
    assert_eq!(token_of(&settled.unwrap().unwrap()), Some(5));
}

#[test]
fn transient_send_failure_settles_nothing() {
    let error = BusError { name: Some(NO_REPLY.to_string()), message: None };
    assert!(dispatcher().send_message_checked(Err(error)).is_none());
    assert!(dispatcher().create_and_send_message(no_reply()).is_none());
}

#[test]
fn permanent_send_failure_is_settled_with_its_words() {
    let error = BusError {
        name: Some("org.freedesktop.DBus.Error.AccessDenied".to_string()),
        message: Some("Rejected send message".to_string()),
    };
    let settled = dispatcher().send_message_checked(Err(error)).unwrap();
    assert_eq!(
        settled.unwrap_err(),
        CallError { kind: ErrorKind::PermanentCall, message: "Rejected send message".to_string() }
    );
}

#[test]
fn permanent_send_failure_without_words() {
    let error = BusError { name: None, message: None };
    let settled = dispatcher().send_message_checked(Err(error)).unwrap();
    assert_eq!(
        settled.unwrap_err(),
        CallError { kind: ErrorKind::PermanentCall, message: "Undefined error message".to_string() }
    );
}

#[test]
fn message_that_was_not_built_is_settled_as_build_failure() {
    let attempt = Attempt::NotBuilt("Object path was not valid: 'x'".to_string());
    let settled = dispatcher().create_and_send_message(attempt).unwrap();
    assert_eq!(
        settled.unwrap_err(),
        CallError {
            kind: ErrorKind::MessageBuild,
            message: "Object path was not valid: 'x'".to_string(),
        }
    );
}

#[test]
fn transient_failure_asks_for_one_retry() {
    let api = dispatcher();
    let call = ping(&api);
    match api.after_attempt(&call, RetryState::new(), no_reply()) {
        Step::Retry(state) => assert_eq!(state.retries(), 1),
        other => panic!("expected a retry, got {:?}", other),
    }
}

#[test]
fn each_transient_failure_counts_once_up_to_the_limit() {
    let api = dispatcher();
    let call = ping(&api);
    let mut state = RetryState::new();
    for expected in 1..RETRIES_ALLOWED {
        match api.after_attempt(&call, state, no_reply()) {
            Step::Retry(next) => {
                assert_eq!(next.retries(), expected);
                state = next;
            }
            other => panic!("expected a retry, got {:?}", other),
        }
    }
    match api.after_attempt(&call, state, no_reply()) {
        Step::Fail(error) => {
            assert_eq!(error.kind, ErrorKind::RetriesExhausted);
            assert_eq!(
                error.message,
                "D-Bus 'org.example.Iface'::'Ping' method call failed on '/test': \
                 method call failed after 10 retries"
            );
        }
        other => panic!("expected the call to be given up, got {:?}", other),
    }
}

#[test]
fn ten_transient_failures_exhaust_the_retries() {
    let api = dispatcher();
    let call = ping(&api);
    let attempts: Vec<Attempt> = (0..10).map(|_| no_reply()).collect();
    let run = api.call_with_args_retry(&call, attempts);
    assert_eq!(run.attempts, 10);
    assert_eq!(run.pauses, 9);
    let error = run.outcome.unwrap().unwrap_err();
    assert_eq!(error.kind, ErrorKind::RetriesExhausted);
    assert_eq!(
        error.message,
        "D-Bus 'org.example.Iface'::'Ping' method call failed on '/test': \
         method call failed after 10 retries"
    );
    assert_eq!(error.severity(), Severity::Error);
}

#[test]
fn no_eleventh_attempt_is_made() {
    let api = dispatcher();
    let call = ping(&api);
    let mut attempts: Vec<Attempt> = (0..10).map(|_| no_reply()).collect();
    attempts.push(Attempt::Reply(reply(1)));
    let run = api.call_with_args_retry(&call, attempts);
    assert_eq!(run.attempts, 10);
    assert_eq!(run.pauses, 9);
    assert_eq!(run.outcome.unwrap().unwrap_err().kind, ErrorKind::RetriesExhausted);
}

#[test]
fn nine_transient_failures_leave_the_call_open() {
    let api = dispatcher();
    let call = ping(&api);
    let attempts: Vec<Attempt> = (0..9).map(|_| no_reply()).collect();
    let run = api.call_with_args_retry(&call, attempts);
    assert!(run.outcome.is_none());
    assert_eq!(run.attempts, 9);
    assert_eq!(run.pauses, 9);
}

#[test]
fn no_attempt_leaves_the_call_open() {
    let api = dispatcher();
    let call = ping(&api);
    let run = api.call_with_args_retry(&call, vec![]);
    assert!(run.outcome.is_none());
    assert_eq!(run.attempts, 0);
    assert_eq!(run.pauses, 0);
}

#[test]
fn permanent_failure_ends_the_call_at_once() {
    let api = dispatcher();
    let call = ping(&api);
    let run = api.call_with_args_retry(&call, vec![access_denied(), Attempt::Reply(reply(1))]);
    assert_eq!(run.attempts, 1);
    assert_eq!(run.pauses, 0);
    let error = run.outcome.unwrap().unwrap_err();
    assert_eq!(error.kind, ErrorKind::PermanentCall);
    assert!(error.message.contains("org.example.Iface"));
    assert!(error.message.contains("Ping"));
    assert!(error.message.contains("/test"));
    assert_eq!(
        error.message,
        "D-Bus 'org.example.Iface'::'Ping' method call failed on '/test': Rejected send message"
    );
}

#[test]
fn permanent_failure_after_retries_ends_the_call() {
    let api = dispatcher();
    let call = ping(&api);
    let run = api.call_with_args_retry(&call, vec![no_reply(), no_reply(), access_denied()]);
    assert_eq!(run.attempts, 3);
    assert_eq!(run.pauses, 2);
    assert_eq!(run.outcome.unwrap().unwrap_err().kind, ErrorKind::PermanentCall);
}

#[test]
fn unnamed_failure_is_permanent() {
    let api = dispatcher();
    let call = ping(&api);
    let attempt = Attempt::NotSent(BusError { name: None, message: None });
    let run = api.call_with_args_retry(&call, vec![attempt]);
    assert_eq!(run.attempts, 1);
    assert_eq!(run.pauses, 0);
    assert_eq!(
        run.outcome.unwrap().unwrap_err(),
        CallError {
            kind: ErrorKind::PermanentCall,
            message: "D-Bus 'org.example.Iface'::'Ping' method call failed on '/test': \
                      Undefined error message"
                .to_string(),
        }
    );
}

#[test]
fn build_failure_is_not_retried() {
    let api = dispatcher();
    let call: RemoteCall<u8> = api.call("##invalid##", "org.example.Iface", "Ping");
    let cause = call.create_message().unwrap_err();
    let run = api.call_with_args_retry(&call, vec![Attempt::NotBuilt(cause), no_reply()]);
    assert_eq!(run.attempts, 1);
    assert_eq!(run.pauses, 0);
    assert_eq!(
        run.outcome.unwrap().unwrap_err(),
        CallError {
            kind: ErrorKind::MessageBuild,
            message: "D-Bus 'org.example.Iface'::'Ping' method call failed on '##invalid##': \
                      Object path was not valid: '##invalid##'"
                .to_string(),
        }
    );
}

#[test]
fn reply_on_the_first_attempt() {
    let api = dispatcher();
    let call = ping(&api);
    let run = api.call_with_args_retry(&call, vec![Attempt::Reply(reply(11)), no_reply()]);
    assert_eq!(run.attempts, 1);
    assert_eq!(run.pauses, 0);
    assert_eq!(token_of(&run.outcome.unwrap().unwrap()), Some(11));
}

#[test]
fn reply_on_any_attempt_up_to_the_tenth() {
    let api = dispatcher();
    let call = ping(&api);
    for k in 1..=10usize {
        let mut attempts: Vec<Attempt> = (1..k).map(|_| no_reply()).collect();
        attempts.push(Attempt::Reply(reply(k as u32)));
        attempts.push(Attempt::Reply(reply(1000)));
        let run = api.call_with_args_retry(&call, attempts);
        assert_eq!(run.attempts, k);
        assert_eq!(run.pauses, k - 1);
        assert_eq!(token_of(&run.outcome.unwrap().unwrap()), Some(k as u32));
    }
}

#[test]
fn reply_is_returned_as_the_step() {
    let api = dispatcher();
    let call = ping(&api);
    match api.after_attempt(&call, RetryState::new(), Attempt::Reply(reply(3))) {
        Step::Return(message) => assert_eq!(token_of(&message), Some(3)),
        other => panic!("expected the reply, got {:?}", other),
    }
}

#[test]
fn two_lost_replies_then_success() {
    let api = DBusApi::new(
        "org.example.Service".to_string(),
        vec!["org.freedesktop.DBus.Error.NoReply".to_string()],
        Some(15),
    );
    let call: RemoteCall<u8> = api.call("/test", "org.example.Iface", "Ping");
    assert_eq!(call.timeout_millis, 15000);
    assert!(call.create_message().is_ok());
    let run = api.call_with_args_retry(
        &call,
        vec![no_reply(), no_reply(), Attempt::Reply(reply(77))],
    );
    assert_eq!(token_of(&run.outcome.unwrap().unwrap()), Some(77));
    assert_eq!(run.attempts, 3);
    assert_eq!(run.attempts - 1, 2);
    assert_eq!(run.pauses, 2);
    assert_eq!(run.pauses as u64 * BACKOFF_SECONDS, 2);
}
