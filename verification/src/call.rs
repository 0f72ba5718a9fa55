//! One remote call: what it is addressed to, and the message made for it.

use vstd::prelude::*;
use dbus::Message;
use crate::api::DBusApi;

verus! {

/// What `dbus::BusName::from_slice` makes of the bytes of `name`: nothing
/// where it takes them for a bus name, else the words of its refusal.
pub uninterp spec fn bus_name_refusal(name: Seq<char>) -> Option<Seq<char>>;

/// What `dbus::Path::from_slice` makes of the bytes of `path`: nothing where
/// it takes them for an object path, else the words of its refusal.
pub uninterp spec fn object_path_refusal(path: Seq<char>) -> Option<Seq<char>>;

/// What `dbus::Interface::from_slice` makes of the bytes of `interface`:
/// nothing where it takes them for an interface name, else the words of its
/// refusal.
pub uninterp spec fn interface_refusal(interface: Seq<char>) -> Option<Seq<char>>;

/// What `dbus::Member::from_slice` makes of the bytes of `member`: nothing
/// where it takes them for a method name, else the words of its refusal.
pub uninterp spec fn member_refusal(member: Seq<char>) -> Option<Seq<char>>;

/// The message type of the bus. A value of it is carried, never read here.
#[verifier::external_type_specification]
#[verifier::external_body]
pub struct ExMessage(dbus::Message);

/// Calls `dbus::BusName::from_slice` on the bytes of `name` and keeps only
/// whether it accepted them, and its refusal where it did not. Trusted: the
/// answer depends on `name` alone.
#[verifier::external_body]
fn check_bus_name(name: &str) -> (r: Result<(), String>)
    ensures
        bus_name_refusal(name@) == (match r {
            Ok(_) => None,
            Err(text) => Some(text@),
        }),
{
    match dbus::BusName::from_slice(name.as_bytes()) {
        Ok(_) => Ok(()),
        Err(text) => Err(text),
    }
}

/// Calls `dbus::Path::from_slice` on the bytes of `path` and keeps only
/// whether it accepted them, and its refusal where it did not. Trusted: the
/// answer depends on `path` alone.
#[verifier::external_body]
fn check_object_path(path: &str) -> (r: Result<(), String>)
    ensures
        object_path_refusal(path@) == (match r {
            Ok(_) => None,
            Err(text) => Some(text@),
        }),
{
    match dbus::Path::from_slice(path.as_bytes()) {
        Ok(_) => Ok(()),
        Err(text) => Err(text),
    }
}

/// Calls `dbus::Interface::from_slice` on the bytes of `interface` and keeps
/// only whether it accepted them, and its refusal where it did not. Trusted:
/// the answer depends on `interface` alone.
#[verifier::external_body]
fn check_interface(interface: &str) -> (r: Result<(), String>)
    ensures
        interface_refusal(interface@) == (match r {
            Ok(_) => None,
            Err(text) => Some(text@),
        }),
{
    match dbus::Interface::from_slice(interface.as_bytes()) {
        Ok(_) => Ok(()),
        Err(text) => Err(text),
    }
}

/// Calls `dbus::Member::from_slice` on the bytes of `member` and keeps only
/// whether it accepted them, and its refusal where it did not. Trusted: the
/// answer depends on `member` alone.
#[verifier::external_body]
fn check_member(member: &str) -> (r: Result<(), String>)
    ensures
        member_refusal(member@) == (match r {
            Ok(_) => None,
            Err(text) => Some(text@),
        }),
{
    match dbus::Member::from_slice(member.as_bytes()) {
        Ok(_) => Ok(()),
        Err(text) => Err(text),
    }
}

/// The one thing that `dbus::Message::new_method_call` says when it has no
/// message to give for four names that it accepts.
pub open spec fn no_message_text() -> Seq<char> {
    "D-Bus error: dbus_message_new_method_call failed"@
}

/// Calls `dbus::Message::new_method_call`. It turns each string into its
/// name type by the `from_slice` of that type and panics where that
/// refuses, so all four must have been accepted before. Trusted: where it
/// fails on accepted names, its error is the fixed text above. Whether it
/// fails there is not for this library to say.
#[verifier::external_body]
fn new_method_call(destination: &str, path: &str, interface: &str, method: &str) -> (r: Result<
    Message,
    String,
>)
    requires
        bus_name_refusal(destination@) is None,
        object_path_refusal(path@) is None,
        interface_refusal(interface@) is None,
        member_refusal(method@) is None,
    ensures
        r matches Err(text) ==> text@ == no_message_text(),
{
    Message::new_method_call(destination, path, interface, method)
}

/// A call as contracts see it.
pub struct RemoteCallView<A> {
    /// The bus name of the service called.
    pub destination: Seq<char>,
    /// The path of the object called.
    pub path: Seq<char>,
    /// The interface that the method belongs to.
    pub interface: Seq<char>,
    /// The method called.
    pub method: Seq<char>,
    /// The arguments, in their order.
    pub args: Seq<A>,
    /// Milliseconds to wait for the reply of each attempt.
    pub timeout_millis: int,
}

/// One invocation of a remote method: where it goes, what it hands over, and
/// how long each attempt may wait. The arguments are the caller's: this
/// library carries them and never looks inside.
#[derive(Debug)]
pub struct RemoteCall<A> {
    pub destination: String,
    pub path: String,
    pub interface: String,
    pub method: String,
    pub args: Vec<A>,
    pub timeout_millis: i32,
}

impl<A> View for RemoteCall<A> {
    type V = RemoteCallView<A>;

    open spec fn view(&self) -> RemoteCallView<A> {
        RemoteCallView {
            destination: self.destination@,
            path: self.path@,
            interface: self.interface@,
            method: self.method@,
            args: self.args@,
            timeout_millis: self.timeout_millis as int,
        }
    }
}

/// The refusal that stops a call from becoming a message: the first among
/// those of the bus name, the path, the interface and the method, in this
/// order; nothing where all four are accepted.
pub open spec fn target_refusal<A>(call: RemoteCallView<A>) -> Option<Seq<char>> {
    if bus_name_refusal(call.destination) is Some {
        bus_name_refusal(call.destination)
    } else if object_path_refusal(call.path) is Some {
        object_path_refusal(call.path)
    } else if interface_refusal(call.interface) is Some {
        interface_refusal(call.interface)
    } else {
        member_refusal(call.method)
    }
}

/// An object of the service as contracts see it.
pub struct ObjectTargetView {
    pub destination: Seq<char>,
    pub path: Seq<char>,
    pub timeout_millis: int,
}

/// An object of the service, as a property read addresses it: the bus name
/// and the path, both well formed, and the milliseconds to wait.
#[derive(Clone, Debug, PartialEq, Eq)]
pub struct ObjectTarget {
    pub destination: String,
    pub path: String,
    pub timeout_millis: i32,
}

impl View for ObjectTarget {
    type V = ObjectTargetView;

    open spec fn view(&self) -> ObjectTargetView {
        ObjectTargetView {
            destination: self.destination@,
            path: self.path@,
            timeout_millis: self.timeout_millis as int,
        }
    }
}

/// The refusal that stops an object from being addressed: that of the bus
/// name, else that of the path; nothing where both are accepted.
pub open spec fn object_refusal(destination: Seq<char>, path: Seq<char>) -> Option<Seq<char>> {
    if bus_name_refusal(destination) is Some {
        bus_name_refusal(destination)
    } else {
        object_path_refusal(path)
    }
}

impl<A> RemoteCall<A> {
    /// Whether the call has arguments to attach to its message.
    pub fn has_args(&self) -> (b: bool)
        ensures
            b == (self@.args.len() > 0),
    {
        self.args.len() > 0
    }

    /// Makes the message of this call, without its arguments: a method call
    /// addressed to the destination, the path, the interface and the method.
    /// A malformed name is answered with its refusal, and no message is
    /// asked for. Where all four names are well formed there is a message,
    /// unless the bus library had none to give.
    pub fn create_message(&self) -> (r: Result<Message, String>)
        ensures
            match target_refusal(self@) {
                Some(refusal) => r matches Err(text) && text@ == refusal,
                None => r matches Err(text) ==> text@ == no_message_text(),
            },
    {
        match check_bus_name(self.destination.as_str()) {
            Err(text) => {
                return Err(text);
            },
            Ok(_) => {},
        }
        match check_object_path(self.path.as_str()) {
            Err(text) => {
                return Err(text);
            },
            Ok(_) => {},
        }
        match check_interface(self.interface.as_str()) {
            Err(text) => {
                return Err(text);
            },
            Ok(_) => {},
        }
        match check_member(self.method.as_str()) {
            Err(text) => {
                return Err(text);
            },
            Ok(_) => {},
        }
        new_method_call(
            self.destination.as_str(),
            self.path.as_str(),
            self.interface.as_str(),
            self.method.as_str(),
        )
    }
}

impl DBusApi {
    /// The object at `path` of this dispatcher's service, with this
    /// dispatcher's timeout. A malformed bus name or path is answered with
    /// its refusal.
    pub fn with_path(&self, path: &str) -> (r: Result<ObjectTarget, String>)
        ensures
            match object_refusal(self@.base, path@) {
                Some(refusal) => r matches Err(text) && text@ == refusal,
                None => r matches Ok(target) && target@ == (ObjectTargetView {
                    destination: self@.base,
                    path: path@,
                    timeout_millis: self@.method_timeout * 1000,
                }),
            },
    {
        match check_bus_name(self.base()) {
            Err(text) => {
                return Err(text);
            },
            Ok(_) => {},
        }
        match check_object_path(path) {
            Err(text) => {
                return Err(text);
            },
            Ok(_) => {},
        }
        Ok(
            ObjectTarget {
                destination: String::from_str(self.base()),
                path: String::from_str(path),
                timeout_millis: self.timeout_millis(),
            },
        )
    }

    /// A call of `method` on `interface` at `path`, with `args`, addressed to
    /// this dispatcher's bus name and waiting as long as this dispatcher
    /// does.
    pub fn call_with_args<A>(&self, path: &str, interface: &str, method: &str, args: Vec<A>) -> (call:
        RemoteCall<A>)
        ensures
            call@ == (RemoteCallView {
                destination: self@.base,
                path: path@,
                interface: interface@,
                method: method@,
                args: args@,
                timeout_millis: self@.method_timeout * 1000,
            }),
    {
        RemoteCall {
            destination: String::from_str(self.base()),
            path: String::from_str(path),
            interface: String::from_str(interface),
            method: String::from_str(method),
            args,
            timeout_millis: self.timeout_millis(),
        }
    }

    /// A call of `method` on `interface` at `path` without arguments: the
    /// same as `call_with_args` with an empty list.
    pub fn call<A>(&self, path: &str, interface: &str, method: &str) -> (call: RemoteCall<A>)
        ensures
            call@ == (RemoteCallView {
                destination: self@.base,
                path: path@,
                interface: interface@,
                method: method@,
                args: Seq::<A>::empty(),
                timeout_millis: self@.method_timeout * 1000,
            }),
    {
        self.call_with_args(path, interface, method, Vec::new())
    }
}

} // verus!
