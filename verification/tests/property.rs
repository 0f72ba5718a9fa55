use dbus_api::{BusError, CallError, DBusApi, ErrorKind, Severity, WireValue};

fn reader() -> DBusApi {
    DBusApi::new("org.example".to_string(), vec![], Some(15))
}

fn read_of(value: WireValue) -> Result<WireValue, BusError> {
    Ok(value)
}

#[test]
fn property_of_the_asked_type() {
    let state: Result<u32, CallError> =
        reader().property("/dev/0", "org.example.Device", "State", read_of(WireValue::Integer(70)));
    assert_eq!(state, Ok(70));
    let name: Result<String, CallError> = reader().property(
        "/dev/0",
        "org.example.Device",
        "Name",
        read_of(WireValue::Text("eth0".to_string())),
    );
    assert_eq!(name, Ok("eth0".to_string()));
    let count: Result<i64, CallError> =
        reader().property("/dev/0", "org.example.Device", "Count", read_of(WireValue::Integer(-3)));
    assert_eq!(count, Ok(-3));
}

#[test]
fn property_as_bool_is_true_for_zero() {
    let zero: Result<bool, CallError> =
        reader().property("/dev/0", "org.example.Device", "Flag", read_of(WireValue::Integer(0)));
    assert_eq!(zero, Ok(true));
    let one: Result<bool, CallError> =
        reader().property("/dev/0", "org.example.Device", "Flag", read_of(WireValue::Integer(1)));
    assert_eq!(one, Ok(false));
}

#[test]
fn property_lists() {
    let names: Result<Vec<String>, CallError> = reader().property(
        "/dev/0",
        "org.example.Device",
        "Names",
        read_of(WireValue::Sequence(vec![
            WireValue::Text("a".to_string()),
            WireValue::Text("b".to_string()),
        ])),
    );
    assert_eq!(names, Ok(vec!["a".to_string(), "b".to_string()]));
    let ssid: Result<Vec<u8>, CallError> = reader().property(
        "/dev/0",
        "org.example.Device",
        "Ssid",
        read_of(WireValue::Sequence(vec![WireValue::Integer(104), WireValue::Integer(105)])),
    );
    assert_eq!(ssid, Ok(vec![104, 105]));
}

#[test]
fn property_of_another_type_is_a_mismatch() {
    let state: Result<u32, CallError> = reader().property(
        "/dev/0",
        "org.example.Device",
        "State",
        read_of(WireValue::Text("up".to_string())),
    );
    let error = state.unwrap_err();
    assert_eq!(error.kind, ErrorKind::PropertyTypeMismatch);
    assert_eq!(
        error.message,
        "D-Bus get 'org.example.Device'::'State' property failed on '/dev/0': wrong property type"
    );
    assert_eq!(error.severity(), Severity::Error);
}

#[test]
fn failed_read_uses_the_details_of_the_bus() {
    let read = Err(BusError {
        name: Some("org.freedesktop.DBus.Error.UnknownProperty".to_string()),
        message: Some("No such property".to_string()),
    });
    let state: Result<u32, CallError> =
        reader().property("/dev/0", "org.example.Device", "State", read);
    let error = state.unwrap_err();
    assert_eq!(error.kind, ErrorKind::PropertyRead);
    assert_eq!(
        error.message,
        "D-Bus get 'org.example.Device'::'State' property failed on '/dev/0': No such property"
    );
    assert_eq!(error.severity(), Severity::Warning);
}

#[test]
fn failed_read_without_details() {
    let read = Err(BusError { name: None, message: None });
    let state: Result<String, CallError> =
        reader().property("/dev/0", "org.example.Device", "State", read);
    assert_eq!(
        state,
        Err(CallError {
            kind: ErrorKind::PropertyRead,
            message:
                "D-Bus get 'org.example.Device'::'State' property failed on '/dev/0': no details"
                    .to_string(),
        })
    );
}

#[test]
fn failed_read_is_not_retried_even_with_a_retry_name() {
    let api = DBusApi::new(
        "org.example".to_string(),
        vec!["org.freedesktop.DBus.Error.NoReply".to_string()],
        None,
    );
    let read = Err(BusError {
        name: Some("org.freedesktop.DBus.Error.NoReply".to_string()),
        message: Some("timed out".to_string()),
    });
    let state: Result<u32, CallError> = api.property("/dev/0", "org.example.Device", "State", read);
    assert_eq!(state.unwrap_err().kind, ErrorKind::PropertyRead);
}

#[test]
fn severities_of_the_kinds() {
    assert_eq!(ErrorKind::MessageBuild.severity(), Severity::Error);
    assert_eq!(ErrorKind::TransientCall.severity(), Severity::Debug);
    assert_eq!(ErrorKind::RetriesExhausted.severity(), Severity::Error);
    assert_eq!(ErrorKind::PermanentCall.severity(), Severity::Error);
    assert_eq!(ErrorKind::PropertyRead.severity(), Severity::Warning);
    assert_eq!(ErrorKind::PropertyTypeMismatch.severity(), Severity::Error);
    assert_eq!(ErrorKind::ResponseShape.severity(), Severity::Error);
    assert_eq!(ErrorKind::VariantShape.severity(), Severity::Error);
}

#[test]
fn errors_are_built_from_their_parts() {
    assert_eq!(
        CallError::new(ErrorKind::ResponseShape, "text"),
        CallError { kind: ErrorKind::ResponseShape, message: "text".to_string() }
    );
    assert_eq!(
        CallError::with_detail(ErrorKind::VariantShape, "before: ", "after"),
        CallError { kind: ErrorKind::VariantShape, message: "before: after".to_string() }
    );
    assert_eq!(
        CallError::call_failure(ErrorKind::PermanentCall, "i.f", "M", "/p", "cause"),
        CallError {
            kind: ErrorKind::PermanentCall,
            message: "D-Bus 'i.f'::'M' method call failed on '/p': cause".to_string(),
        }
    );
    assert_eq!(
        CallError::property_failure(ErrorKind::PropertyRead, "i.f", "N", "/p", "details"),
        CallError {
            kind: ErrorKind::PropertyRead,
            message: "D-Bus get 'i.f'::'N' property failed on '/p': details".to_string(),
        }
    );
}
