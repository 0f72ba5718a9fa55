//! The dispatcher's configuration: whom it calls, how long it waits, and
//! which error names it takes for transient.

use vstd::prelude::*;

verus! {

/// Seconds a dispatcher waits for a reply when it was given no timeout.
pub const DEFAULT_TIMEOUT: u64 = 15;

/// The largest timeout in seconds whose milliseconds still fit the
/// transport's signed 32-bit timeout.
pub const MAX_TIMEOUT: u64 = 2_147_483;

/// A dispatcher as contracts see it.
pub struct DBusApiView {
    /// Seconds to wait for each reply.
    pub method_timeout: u64,
    /// The bus name that every call goes to.
    pub base: Seq<char>,
    /// The error names after which a call is tried again, in the order given.
    pub retry_names: Seq<Seq<char>>,
}

/// The dispatcher: the bus name that it calls, its timeout, and the error
/// names that it takes for transient. All three are set once, by `new`.
pub struct DBusApi {
    method_timeout: u64,
    base: String,
    method_retry_error_names: Vec<String>,
}

impl View for DBusApi {
    type V = DBusApiView;

    closed spec fn view(&self) -> DBusApiView {
        DBusApiView {
            method_timeout: self.method_timeout,
            base: self.base@,
            retry_names: self.method_retry_error_names.deep_view(),
        }
    }
}

/// The timeout that `new` settles on: the one given, else the default.
pub open spec fn chosen_timeout(method_timeout: Option<u64>) -> u64 {
    match method_timeout {
        Some(seconds) => seconds,
        None => DEFAULT_TIMEOUT,
    }
}

impl DBusApi {
    #[verifier::type_invariant]
    spec fn timeout_fits(self) -> bool {
        self.method_timeout <= MAX_TIMEOUT
    }

    /// A dispatcher for the service `base`, which retries a call after the
    /// errors named in `method_retry_error_names` and waits `method_timeout`
    /// seconds for each reply, or `DEFAULT_TIMEOUT` where none is given.
    pub fn new(
        base: String,
        method_retry_error_names: Vec<String>,
        method_timeout: Option<u64>,
    ) -> (api: DBusApi)
        requires
            chosen_timeout(method_timeout) <= MAX_TIMEOUT,
        ensures
            api@ == (DBusApiView {
                method_timeout: chosen_timeout(method_timeout),
                base: base@,
                retry_names: method_retry_error_names.deep_view(),
            }),
    {
        let method_timeout: u64 = match method_timeout {
            Some(seconds) => seconds,
            None => DEFAULT_TIMEOUT,
        };
        DBusApi { method_timeout, base, method_retry_error_names }
    }

    /// Seconds this dispatcher waits for each reply.
    pub fn method_timeout(&self) -> (seconds: u64)
        ensures
            seconds == self@.method_timeout,
            seconds <= MAX_TIMEOUT,
    {
        proof {
            use_type_invariant(self);
        }
        self.method_timeout
    }

    /// The timeout in milliseconds, as the transport takes it. It is the
    /// same for every call and every property read of this dispatcher.
    pub fn timeout_millis(&self) -> (millis: i32)
        ensures
            millis == self@.method_timeout * 1000,
    {
        proof {
            use_type_invariant(self);
        }
        let millis: u64 = self.method_timeout * 1000;
        millis as i32
    }

    /// The bus name that every call of this dispatcher goes to.
    pub fn base(&self) -> (name: &str)
        ensures
            name@ == self@.base,
    {
        self.base.as_str()
    }

    /// The error names after which this dispatcher tries a call again.
    pub fn method_retry_error_names(&self) -> (names: &Vec<String>)
        ensures
            names.deep_view() == self@.retry_names,
    {
        &self.method_retry_error_names
    }
}

} // verus!
