//! The client-side mirror of a remote GATT hierarchy: characteristic
//! records populated from discovery snapshots, the notify handshake,
//! and the response mappings for outbound calls.

use vstd::prelude::*;
use crate::Error;
use crate::sock::{recv_datagram_nonblocking, recv_datagram_blocking, set_recv_timeout, close_fd,
    RecvOutcome};
use crate::strmap::StrMap;
use crate::value::CharValue;
use crate::wire::{Arg, DictValue, MethodCall, PropDict, Reply, RVal};

verus! {

/// A descriptor discovered on a remote device.
pub struct RemoteDescBase {
    pub uuid: String,
    pub path: Vec<u8>,
}

/// A service discovered on a remote device.
pub struct RemoteServiceBase {
    pub uuid: String,
    pub path: Vec<u8>,
    pub chars: StrMap<RemoteCharBase>,
}

impl RemoteServiceBase {
    pub fn new(uuid: &str, path: Vec<u8>) -> (r: Self)
        ensures
            r.uuid@ == uuid@,
            r.path == path,
            r.chars.entry_seq() == Seq::<(String, RemoteCharBase)>::empty(),
            r.chars.wf(),
    {
        RemoteServiceBase { uuid: String::from_str(uuid), path, chars: StrMap::new() }
    }
}

/// A characteristic discovered on a remote device: its UUID and path,
/// the retained notify descriptor once acquired, and child descriptors.
pub struct RemoteCharBase {
    pub uuid: String,
    pub descs: StrMap<RemoteDescBase>,
    pub notify_fd: Option<i32>,
    pub path: Vec<u8>,
}

impl RemoteCharBase {
    /// Builds a record from a discovery property snapshot: the `UUID`
    /// property must be present as a string; unknown properties are
    /// ignored.
    pub fn from_props(props: &PropDict, path: Vec<u8>) -> (r: Result<RemoteCharBase, Error>)
        ensures
            match props.spec_get("UUID"@) {
                Some(DictValue::Str(u)) => r matches Ok(c) && c.uuid@ == u@ && c.path == path
                    && c.notify_fd is None && c.descs.entry_seq()
                    == Seq::<(String, RemoteDescBase)>::empty(),
                Some(_) => r matches Err(Error::DbusReqErr(m)) && m@
                    == "Invalid device returned; UUID field is invalid type"@,
                None => r matches Err(Error::DbusReqErr(m)) && m@
                    == "Invalid device returned; missing UUID field"@,
            },
    {
        match props.get("UUID") {
            Some(DictValue::Str(u)) => Ok(
                RemoteCharBase {
                    uuid: u.clone(),
                    descs: StrMap::new(),
                    notify_fd: None,
                    path,
                },
            ),
            Some(_) => Err(
                Error::DbusReqErr(
                    String::from_str("Invalid device returned; UUID field is invalid type"),
                ),
            ),
            None => Err(
                Error::DbusReqErr(String::from_str("Invalid device returned; missing UUID field")),
            ),
        }
    }

    /// The `AcquireNotify` call to issue on the bus for this
    /// characteristic: an empty options dictionary, addressed to its
    /// path on the characteristic interface.
    pub fn acquire_notify_call(&self) -> (r: MethodCall)
        ensures
            r.path@ == self.path@,
            r.interface@ == "org.bluez.GattCharacteristic1"@,
            r.member@ == "AcquireNotify"@,
            r.args@.len() == 1,
            r.args@[0] matches Arg::Dict(d) && d.entry_seq()
                == Seq::<(String, DictValue)>::empty(),
    {
        let mut args: Vec<Arg> = Vec::new();
        args.push(Arg::Dict(StrMap::new()));
        let path = self.path.clone();
        proof {
            assert(path@ =~= self.path@);
        }
        MethodCall {
            path,
            interface: String::from_str("org.bluez.GattCharacteristic1"),
            member: String::from_str("AcquireNotify"),
            args,
        }
    }

    /// Applies the reply to an `AcquireNotify` call: retains and
    /// returns the descriptor on success, or describes what failed.
    pub fn acquire_notify_finish(&mut self, res: &Reply) -> (r: Result<i32, Error>)
        ensures
            final(self).uuid == old(self).uuid,
            final(self).path == old(self).path,
            final(self).descs == old(self).descs,
            match res {
                Reply::Success(vals) => {
                    if vals@.len() >= 1 && (vals@[0] is Fd) {
                        &&& (r matches Ok(fd) && vals@[0] == RVal::Fd(fd))
                        &&& (final(self).notify_fd matches Some(fd) && vals@[0] == RVal::Fd(fd))
                    } else {
                        &&& r matches Err(Error::DbusReqErr(m)) && m@
                            == "Response returned unexpected of parameter"@
                        &&& final(self).notify_fd == old(self).notify_fd
                    }
                },
                Reply::Error { name, .. } => r matches Err(Error::DbusReqErr(m)) && m@ == name@
                    && final(self).notify_fd == old(self).notify_fd,
            },
    {
        match res {
            Reply::Success(vals) => {
                if vals.len() >= 1 {
                    match &vals[0] {
                        RVal::Fd(fd) => {
                            self.notify_fd = Some(*fd);
                            return Ok(*fd);
                        },
                        _ => (),
                    }
                }
                Err(
                    Error::DbusReqErr(
                        String::from_str("Response returned unexpected of parameter"),
                    ),
                )
            },
            Reply::Error { name, .. } => Err(Error::DbusReqErr(name.clone())),
        }
    }

    /// The `ReadValue` call to issue on the bus for this
    /// characteristic.
    pub fn read_call(&self) -> (r: MethodCall)
        ensures
            r.path@ == self.path@,
            r.interface@ == "org.bluez.GattCharacteristic1"@,
            r.member@ == "ReadValue"@,
            r.args@.len() == 1,
            r.args@[0] matches Arg::Dict(d) && d.entry_seq()
                == Seq::<(String, DictValue)>::empty(),
    {
        let mut args: Vec<Arg> = Vec::new();
        args.push(Arg::Dict(StrMap::new()));
        let path = self.path.clone();
        proof {
            assert(path@ =~= self.path@);
        }
        MethodCall {
            path,
            interface: String::from_str("org.bluez.GattCharacteristic1"),
            member: String::from_str("ReadValue"),
            args,
        }
    }

    /// Polls the retained notify descriptor without blocking: `None`
    /// when no descriptor is active, otherwise one datagram of at most
    /// 255 bytes, or an error when nothing is ready or the socket
    /// failed.
    pub fn try_get_notify(&self) -> (r: Result<Option<Vec<u8>>, Error>)
        ensures
            self.notify_fd is None <==> r matches Ok(None),
            r matches Ok(Some(v)) ==> v@.len() <= 255,
    {
        let fd = match self.notify_fd {
            Some(fd) => fd,
            None => {
                return Ok(None);
            },
        };
        match recv_datagram_nonblocking(fd, 255) {
            RecvOutcome::Data(v) => Ok(Some(v)),
            RecvOutcome::WouldBlock => Err(Error::Io),
            RecvOutcome::Failed => Err(Error::Io),
        }
    }

    /// Waits for one notification datagram. With no timeout the wait
    /// blocks until a datagram arrives; with a timeout of `t > 0`
    /// microseconds it is bounded by `t`; a zero timeout polls without
    /// blocking. `None` when no descriptor is active.
    pub fn wait_get_notify(&self, timeout_micros: Option<u64>) -> (r: Result<
        Option<Vec<u8>>,
        Error,
    >)
        requires
            timeout_micros matches Some(t) ==> t <= 9_223_372_036_853_999_999,
        ensures
            self.notify_fd is None <==> r matches Ok(None),
            r matches Ok(Some(v)) ==> v@.len() <= 255,
    {
        let fd = match self.notify_fd {
            Some(fd) => fd,
            None => {
                return Ok(None);
            },
        };
        match timeout_micros {
            Some(0) => match recv_datagram_nonblocking(fd, 255) {
                RecvOutcome::Data(v) => Ok(Some(v)),
                RecvOutcome::WouldBlock => Err(Error::Io),
                RecvOutcome::Failed => Err(Error::Io),
            },
            Some(micros) => {
                if !set_recv_timeout(fd, micros as i64) {
                    return Err(Error::Io);
                }
                match recv_datagram_blocking(fd, 255) {
                    RecvOutcome::Data(v) => Ok(Some(v)),
                    RecvOutcome::WouldBlock => Err(Error::Io),
                    RecvOutcome::Failed => Err(Error::Io),
                }
            },
            None => {
                if !set_recv_timeout(fd, 0) {
                    return Err(Error::Io);
                }
                match recv_datagram_blocking(fd, 255) {
                    RecvOutcome::Data(v) => Ok(Some(v)),
                    RecvOutcome::WouldBlock => Err(Error::Io),
                    RecvOutcome::Failed => Err(Error::Io),
                }
            },
        }
    }

    /// The retained notify descriptor, when acquired.
    pub fn get_notify_fd(&self) -> (r: Option<i32>)
        ensures
            r == self.notify_fd,
    {
        self.notify_fd
    }

    /// Releases the retained notify descriptor, as on teardown.
    pub fn close_notify(&mut self)
        ensures
            final(self).notify_fd is None,
            final(self).uuid == old(self).uuid,
            final(self).path == old(self).path,
            final(self).descs == old(self).descs,
    {
        if let Some(fd) = self.notify_fd {
            close_fd(fd);
            self.notify_fd = None;
        }
    }
}

/// Maps the reply to an outbound `ReadValue` into the value read: the
/// resolution strategy stored by a remote read's pending handle.
pub fn mm_to_charvalue(res: &Reply) -> (r: Result<CharValue, Error>)
    ensures
        match res {
            Reply::Success(vals) => {
                if vals@.len() >= 1 && (vals@[0] matches RVal::Bytes(b) && b@.len() <= 512) {
                    r matches Ok(cv) && (vals@[0] matches RVal::Bytes(b) && cv@ == b@)
                } else {
                    r matches Err(Error::DbusReqErr(m)) && m@ == "Read call failed"@
                }
            },
            Reply::Error { .. } => r matches Err(Error::DbusReqErr(m)) && m@
                == "Read call failed"@,
        },
{
    match res {
        Reply::Success(vals) => {
            if vals.len() >= 1 {
                match &vals[0] {
                    RVal::Bytes(b) => {
                        if b.len() <= 512 {
                            return Ok(CharValue::from_slice(b.as_slice()));
                        }
                    },
                    _ => (),
                }
            }
            Err(Error::DbusReqErr(String::from_str("Read call failed")))
        },
        Reply::Error { .. } => Err(Error::DbusReqErr(String::from_str("Read call failed"))),
    }
}

} // verus!
