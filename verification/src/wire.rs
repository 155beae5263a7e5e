//! The typed value tree of message bodies, and the call / reply / signal
//! shapes the engine exchanges with the transport. Marshalling these to
//! the concrete wire encoding is the transport's concern.

use vstd::prelude::*;
use crate::strmap::StrMap;

verus! {

/// A variant value inside a string-keyed options dictionary.
pub enum DictValue {
    Bool(bool),
    U16(u16),
    Str(String),
    Bytes(Vec<u8>),
}

/// A string-keyed dictionary of variant values.
pub type PropDict = StrMap<DictValue>;

/// One positional argument of a method call or signal body, or one
/// reflected property value.
pub enum Arg {
    Bool(bool),
    U16(u16),
    Str(String),
    /// An object path.
    Path(Vec<u8>),
    Bytes(Vec<u8>),
    StrArr(Vec<String>),
    Dict(PropDict),
    /// A dictionary from `u16` keys to byte arrays.
    U16ByteDict(Vec<(u16, Vec<u8>)>),
    /// A dictionary from string keys to byte arrays.
    StrByteDict(Vec<(String, Vec<u8>)>),
}

/// An incoming or outgoing bus method call.
pub struct MethodCall {
    /// The object path the call addresses.
    pub path: Vec<u8>,
    /// The interface the member belongs to.
    pub interface: String,
    /// The method name.
    pub member: String,
    /// The body.
    pub args: Vec<Arg>,
}

/// One positional value of a successful reply body.
pub enum RVal {
    Bytes(Vec<u8>),
    U16(u16),
    Str(String),
    /// An out-of-band file descriptor handed to the peer.
    Fd(i32),
}

/// The engine's answer to one method call: a reply body or a named error.
pub enum Reply {
    Success(Vec<RVal>),
    Error { name: String, detail: Option<String> },
}

/// An outbound signal for the transport to emit.
pub struct SignalMsg {
    /// The emitting object's path.
    pub path: Vec<u8>,
    /// The interface the signal belongs to.
    pub interface: String,
    /// The signal name.
    pub member: String,
    /// The body.
    pub args: Vec<Arg>,
}

impl Reply {
    /// Whether this is a successful reply.
    pub open spec fn is_ok(self) -> bool {
        self is Success
    }

    /// Whether this is the named error, whatever its detail.
    pub open spec fn is_err_named(self, name: Seq<char>) -> bool {
        match self {
            Reply::Error { name: n, .. } => n@ == name,
            _ => false,
        }
    }

    /// An empty successful reply.
    pub fn empty() -> (r: Reply)
        ensures
            r matches Reply::Success(vals) && vals@ == Seq::<RVal>::empty(),
    {
        Reply::Success(Vec::new())
    }

    /// An error reply with the given name and optional detail.
    pub fn error(name: &str, detail: Option<&str>) -> (r: Reply)
        ensures
            r matches Reply::Error { name: n, detail: d } && n@ == name@ && (match d {
                Some(ds) => detail matches Some(s) && ds@ == s@,
                None => detail is None,
            }),
    {
        let d = match detail {
            Some(s) => Some(String::from_str(s)),
            None => None,
        };
        Reply::Error { name: String::from_str(name), detail: d }
    }
}

} // verus!
