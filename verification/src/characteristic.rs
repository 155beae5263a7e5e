//! The server-side GATT characteristic engine: the per-characteristic
//! state machine that services bus method calls (read, write, the two
//! notify modes, and the fast-path descriptor handshake), and the
//! records for its descriptors.

use vstd::prelude::*;
use crate::flags::CharFlags;
use crate::path::{child_path, child_path_spec, char_prefix, desc_prefix};
use crate::sock::{socketpair_seqpacket, send_datagram, recv_datagram_nonblocking, close_fd,
    RecvOutcome};
use crate::strmap::StrMap;
use crate::strutil::str_eq;
use crate::value::{CharValue, ValOrFn, ValueSource};
use crate::wire::{Arg, DictValue, MethodCall, PropDict, Reply, RVal, SignalMsg};

verus! {

/// The notification mode of a local characteristic.
pub enum Notify {
    /// `StartNotify` succeeded: changes go out as property-changed
    /// signals.
    Signal,
    /// `AcquireNotify` succeeded: changes go out as datagrams on this
    /// descriptor.
    Fd(i32),
}

/// What a write callback decided, as the engine's contracts see it.
pub enum OutcomeView {
    /// The write stands; `replace` carries the bytes of a replacement
    /// content source, `materialized` whether the content after the
    /// write is a stored value rather than a generator, and `notify`
    /// asks for a change notification.
    Accept { replace: Option<Seq<u8>>, materialized: bool, notify: bool },
    /// The write is refused; the two strings go back verbatim as the
    /// error reply.
    Reject { name: Seq<char>, detail: Option<Seq<char>> },
}

/// What a write callback decided.
pub enum WriteOutcome<G: ValueSource> {
    /// Accept the write, optionally replacing the stored content and
    /// asking for a change notification.
    Accept { replace: Option<ValOrFn<G>>, notify: bool },
    /// Reject the write; the name and detail are sent verbatim as the
    /// error reply.
    Reject { name: String, detail: Option<String> },
}

impl<G: ValueSource> WriteOutcome<G> {
    /// The contract-level view of this outcome.
    pub open spec fn outcome_view(&self) -> OutcomeView {
        match self {
            WriteOutcome::Accept { replace, notify } => OutcomeView::Accept {
                replace: match replace {
                    Some(vf) => Some(vf.bytes()),
                    None => None,
                },
                materialized: match replace {
                    Some(vf) => vf.is_value(),
                    None => true,
                },
                notify: *notify,
            },
            WriteOutcome::Reject { name, detail } => OutcomeView::Reject {
                name: name@,
                detail: match detail {
                    Some(d) => Some(d@),
                    None => None,
                },
            },
        }
    }
}

/// Application logic run on each accepted write, bounded by the
/// accept/reject contract: `on_write` must return what the implementor's
/// own `outcome_spec` model says for those bytes.
pub trait WriteCallback<G: ValueSource>: Sized {
    /// The decision this callback makes, in its current state, for a
    /// written byte sequence.
    spec fn outcome_spec(&self, bytes: Seq<u8>) -> OutcomeView;

    /// Decides about a write of `bytes`; the callback may advance its
    /// own state.
    fn on_write(&mut self, bytes: &[u8]) -> (r: WriteOutcome<G>)
        ensures
            r.outcome_view() == old(self).outcome_spec(bytes@),
    ;
}

/// A callback that accepts every write unchanged and never asks for a
/// notification.
pub struct AcceptAll {}

impl<G: ValueSource> WriteCallback<G> for AcceptAll {
    open spec fn outcome_spec(&self, bytes: Seq<u8>) -> OutcomeView {
        OutcomeView::Accept { replace: None, materialized: true, notify: false }
    }

    fn on_write(&mut self, bytes: &[u8]) -> (r: WriteOutcome<G>) {
        WriteOutcome::Accept { replace: None, notify: false }
    }
}

/// A callback that accepts every write unchanged and always asks for a
/// notification.
pub struct AcceptNotify {}

impl<G: ValueSource> WriteCallback<G> for AcceptNotify {
    open spec fn outcome_spec(&self, bytes: Seq<u8>) -> OutcomeView {
        OutcomeView::Accept { replace: None, materialized: true, notify: true }
    }

    fn on_write(&mut self, bytes: &[u8]) -> (r: WriteOutcome<G>) {
        WriteOutcome::Accept { replace: None, notify: true }
    }
}

/// A callback that rejects every write with a fixed error name and
/// detail.
pub struct RejectAll {
    pub name: String,
    pub detail: Option<String>,
}

impl<G: ValueSource> WriteCallback<G> for RejectAll {
    open spec fn outcome_spec(&self, bytes: Seq<u8>) -> OutcomeView {
        OutcomeView::Reject {
            name: self.name@,
            detail: match self.detail {
                Some(d) => Some(d@),
                None => None,
            },
        }
    }

    fn on_write(&mut self, bytes: &[u8]) -> (r: WriteOutcome<G>) {
        let d = match &self.detail {
            Some(s) => Some(s.clone()),
            None => None,
        };
        WriteOutcome::Reject { name: self.name.clone(), detail: d }
    }
}

/// A callback that accepts every write but replaces the stored content
/// with a fixed value, optionally asking for a notification.
pub struct ReplaceWith {
    pub value: CharValue,
    pub notify: bool,
}

impl<G: ValueSource> WriteCallback<G> for ReplaceWith {
    open spec fn outcome_spec(&self, bytes: Seq<u8>) -> OutcomeView {
        OutcomeView::Accept { replace: Some(self.value@), materialized: true, notify: self.notify }
    }

    fn on_write(&mut self, bytes: &[u8]) -> (r: WriteOutcome<G>) {
        WriteOutcome::Accept {
            replace: Some(ValOrFn::Value(self.value.duplicate())),
            notify: self.notify,
        }
    }
}

/// A local GATT descriptor record: metadata attached to a
/// characteristic.
pub struct LocalDescBase {
    pub uuid: String,
    /// The owning characteristic's UUID: a back-reference key, not an
    /// ownership edge.
    pub char_uuid: String,
    pub index: u16,
    pub path: Vec<u8>,
}

impl LocalDescBase {
    pub fn new(uuid: &str) -> (r: LocalDescBase)
        ensures
            r.uuid@ == uuid@,
            r.char_uuid@ == Seq::<char>::empty(),
            r.index == 0,
            r.path@ == Seq::<u8>::empty(),
    {
        LocalDescBase {
            uuid: String::from_str(uuid),
            char_uuid: String::new(),
            index: 0,
            path: Vec::new(),
        }
    }

    /// Rebases this descriptor's path under its characteristic's path.
    pub fn update_path(&mut self, base: &[u8])
        ensures
            final(self).path@ == child_path_spec(base@, crate::path::desc_prefix_spec(),
                old(self).index),
            final(self).uuid == old(self).uuid,
            final(self).char_uuid == old(self).char_uuid,
            final(self).index == old(self).index,
    {
        let prefix = desc_prefix();
        self.path = child_path(base, &prefix, self.index);
    }
}

/// A local GATT characteristic record: its content source, capability
/// flags, child descriptors, and the notify / write-acquisition state
/// machine that `char_call` drives.
pub struct LocalCharBase<G: ValueSource, CB: WriteCallback<G>> {
    /// The content source a read observes.
    pub vf: ValOrFn<G>,
    pub index: u16,
    pub handle: u16,
    pub uuid: String,
    /// The owning service's UUID: a back-reference key.
    pub serv_uuid: String,
    pub path: Vec<u8>,
    /// The notify state machine: `None` is idle.
    pub notify: Option<Notify>,
    /// The acquired fast-path write descriptor, when there is one.
    pub write_fd: Option<i32>,
    pub descs: StrMap<LocalDescBase>,
    pub flags: CharFlags,
    /// Whether the application enabled the `AcquireWrite` fast path.
    pub allow_write: bool,
    pub desc_index: u16,
    /// Application logic consulted on each write; `None` commits writes
    /// unconditionally.
    pub write_callback: Option<CB>,
}

impl<G: ValueSource, CB: WriteCallback<G>> LocalCharBase<G, CB> {
    /// The stored content's current bytes.
    pub open spec fn value_bytes(self) -> Seq<u8> {
        self.vf.bytes()
    }

    pub open spec fn wf(self) -> bool {
        self.descs.wf()
    }

    /// The identity and configuration that no method call changes: who
    /// the characteristic is and what it is attached to.
    pub open spec fn same_identity(pre: Self, post: Self) -> bool {
        &&& post.uuid == pre.uuid
        &&& post.serv_uuid == pre.serv_uuid
        &&& post.path == pre.path
        &&& post.index == pre.index
        &&& post.handle == pre.handle
        &&& post.flags == pre.flags
        &&& post.descs == pre.descs
        &&& post.desc_index == pre.desc_index
        &&& post.allow_write == pre.allow_write
    }

    /// Creates a detached characteristic with the given UUID and flags;
    /// its path and owning service are assigned when it is attached.
    pub fn new(uuid: &str, flags: CharFlags) -> (r: Self)
        ensures
            r.uuid@ == uuid@,
            r.flags == flags,
            r.value_bytes() == Seq::<u8>::empty(),
            r.vf.is_value(),
            r.notify is None,
            r.write_fd is None,
            !r.allow_write,
            r.write_callback is None,
            r.index == 0,
            r.handle == 0,
            r.serv_uuid@ == Seq::<char>::empty(),
            r.path@ == Seq::<u8>::empty(),
            r.descs.entry_seq() == Seq::<(String, LocalDescBase)>::empty(),
            r.desc_index == 0,
            r.wf(),
    {
        LocalCharBase {
            vf: ValOrFn::Value(CharValue::new()),
            index: 0,
            handle: 0,
            uuid: String::from_str(uuid),
            serv_uuid: String::new(),
            path: Vec::new(),
            notify: None,
            write_fd: None,
            descs: StrMap::new(),
            flags,
            allow_write: false,
            desc_index: 0,
            write_callback: None,
        }
    }

    /// Enables or disables the `AcquireWrite` fast path; disabling
    /// closes an acquired descriptor.
    pub fn enable_write_fd(&mut self, on: bool)
        ensures
            final(self).allow_write == on,
            on ==> final(self).write_fd == old(self).write_fd,
            !on ==> final(self).write_fd is None,
            final(self).vf == old(self).vf,
            final(self).notify == old(self).notify,
            final(self).uuid == old(self).uuid,
            final(self).serv_uuid == old(self).serv_uuid,
            final(self).path == old(self).path,
            final(self).index == old(self).index,
            final(self).handle == old(self).handle,
            final(self).flags == old(self).flags,
            final(self).descs == old(self).descs,
            final(self).desc_index == old(self).desc_index,
            final(self).write_callback == old(self).write_callback,
    {
        self.allow_write = on;
        if !on {
            if let Some(fd) = self.write_fd {
                close_fd(fd);
                self.write_fd = None;
            }
        }
    }

    /// Adds a descriptor, assigning it the next index and this
    /// characteristic's UUID; a descriptor with the same UUID is
    /// replaced.
    pub fn add_desc(&mut self, desc: LocalDescBase)
        requires
            old(self).wf(),
            old(self).desc_index < 0xffff,
        ensures
            final(self).wf(),
            final(self).descs.spec_get(desc.uuid@) matches Some(d) && d.uuid == desc.uuid
                && d.char_uuid == old(self).uuid && d.index == old(self).desc_index
                && d.path == desc.path,
            forall|k2: Seq<char>|
                k2 != desc.uuid@ ==> #[trigger] final(self).descs.spec_get(k2) == old(
                    self,
                ).descs.spec_get(k2),
            final(self).desc_index == old(self).desc_index + 1,
            final(self).vf == old(self).vf,
            final(self).notify == old(self).notify,
            final(self).write_fd == old(self).write_fd,
            final(self).uuid == old(self).uuid,
            final(self).flags == old(self).flags,
            final(self).path == old(self).path,
    {
        let mut desc = desc;
        desc.index = self.desc_index;
        desc.char_uuid = self.uuid.clone();
        self.desc_index = self.desc_index + 1;
        let key = desc.uuid.clone();
        self.descs.insert(key, desc);
    }

    /// Rebases this characteristic's path under its service's path and
    /// cascades to its descriptors.
    pub fn update_path(&mut self, base: &[u8])
        ensures
            final(self).wf() == old(self).wf(),
            final(self).path@ == child_path_spec(base@, crate::path::char_prefix_spec(),
                old(self).index),
            final(self).descs.key_seq() == old(self).descs.key_seq(),
            final(self).vf == old(self).vf,
            final(self).notify == old(self).notify,
            final(self).write_fd == old(self).write_fd,
            final(self).allow_write == old(self).allow_write,
            final(self).desc_index == old(self).desc_index,
            final(self).handle == old(self).handle,
            final(self).write_callback == old(self).write_callback,
            forall|j: int|
                0 <= j < final(self).descs.entry_seq().len() ==> {
                    let pre = #[trigger] old(self).descs.entry_seq()[j].1;
                    let post = final(self).descs.entry_seq()[j].1;
                    &&& post.uuid == pre.uuid
                    &&& post.char_uuid == pre.char_uuid
                    &&& post.index == pre.index
                    &&& post.path@ == child_path_spec(final(self).path@,
                        crate::path::desc_prefix_spec(), pre.index)
                },
            final(self).vf == old(self).vf,
            final(self).notify == old(self).notify,
            final(self).write_fd == old(self).write_fd,
            final(self).uuid == old(self).uuid,
            final(self).serv_uuid == old(self).serv_uuid,
            final(self).index == old(self).index,
            final(self).flags == old(self).flags,
    {
        let prefix = char_prefix();
        self.path = child_path(base, &prefix, self.index);
        let n = self.descs.len();
        let mut i: usize = 0;
        while i < n
            invariant
                i <= n,
                n == self.descs.entry_seq().len(),
                self.descs.entry_seq().len() == old(self).descs.entry_seq().len(),
                self.path@ == child_path_spec(base@, crate::path::char_prefix_spec(),
                    old(self).index),
                self.vf == old(self).vf,
                self.notify == old(self).notify,
                self.write_fd == old(self).write_fd,
                self.uuid == old(self).uuid,
                self.serv_uuid == old(self).serv_uuid,
                self.index == old(self).index,
                self.handle == old(self).handle,
                self.flags == old(self).flags,
                self.allow_write == old(self).allow_write,
                self.desc_index == old(self).desc_index,
                self.write_callback == old(self).write_callback,
                forall|j: int|
                    0 <= j < n ==> #[trigger] self.descs.entry_seq()[j].0 == old(
                        self,
                    ).descs.entry_seq()[j].0,
                forall|j: int|
                    i <= j < n ==> #[trigger] self.descs.entry_seq()[j].1 == old(
                        self,
                    ).descs.entry_seq()[j].1,
                forall|j: int|
                    0 <= j < i ==> {
                        let pre = #[trigger] old(self).descs.entry_seq()[j].1;
                        let post = self.descs.entry_seq()[j].1;
                        &&& post.uuid == pre.uuid
                        &&& post.char_uuid == pre.char_uuid
                        &&& post.index == pre.index
                        &&& post.path@ == child_path_spec(self.path@,
                            crate::path::desc_prefix_spec(), pre.index)
                    },
            decreases n - i,
        {
            let ghost before = self.descs.entry_seq();
            let path_now = self.path.clone();
            let d = self.descs.value_at_mut(i);
            d.update_path(path_now.as_slice());
            proof {
                assert(self.descs.entry_seq() == before.update(
                    i as int,
                    (before[i as int].0, self.descs.entry_seq()[i as int].1),
                ));
            }
            i = i + 1;
        }
        proof {
            assert(final(self).descs.key_seq() =~= old(self).descs.key_seq());
        }
    }

    /// The state `AcquireWrite` and `AcquireNotify` leave untouched.
    pub open spec fn acquire_frame(pre: Self, post: Self) -> bool {
        &&& Self::same_identity(pre, post)
        &&& post.vf == pre.vf
        &&& post.write_callback == pre.write_callback
    }

    /// What `AcquireWrite` guarantees: gated on the application having
    /// enabled the fast path and on the `write` flag, refused while
    /// acquired, and otherwise either a descriptor plus the negotiated
    /// MTU (the request clamped to 512, default 512) or a failure reply
    /// when no socket pair could be made.
    pub open spec fn acquire_write_post(pre: Self, post: Self, args: Seq<Arg>, r: Reply) -> bool {
        &&& Self::acquire_frame(pre, post)
        &&& post.notify == pre.notify
        &&& if !pre.allow_write {
            r.is_err_named("org.bluez.Error.NotSupported"@) && post == pre
        } else if !pre.flags.write {
            r.is_err_named("org.bluez.Error.NotPermitted"@) && post == pre
        } else if pre.write_fd is Some {
            r.is_err_named("org.bluez.Error.InProgress"@) && post == pre
        } else if dict_u16_bad(args, "mtu"@) {
            r.is_err_named("UnexpectedType"@) && post == pre
        } else {
            let mtu = if dict_u16_or(args, "mtu"@, 512) < 512 {
                dict_u16_or(args, "mtu"@, 512)
            } else {
                512
            };
            ||| (r matches Reply::Success(vals) && vals@.len() == 2 && (vals@[0] is Fd)
                && vals@[1] == RVal::U16(mtu) && post.write_fd is Some)
            ||| (r.is_err_named("org.bluez.Error.Failed"@) && post == pre)
        }
    }

    /// Services `AcquireWrite`.
    pub fn acquire_write_reply(&mut self, args: &Vec<Arg>) -> (r: Reply)
        ensures
            Self::acquire_write_post(*old(self), *final(self), args@, r),
    {
        if !self.allow_write {
            return Reply::error("org.bluez.Error.NotSupported", None);
        }
        if !self.flags.write {
            return Reply::error(
                "org.bluez.Error.NotPermitted",
                Some("This is not a writable characteristic."),
            );
        }
        if self.write_fd.is_some() {
            return Reply::error(
                "org.bluez.Error.InProgress",
                Some("This characteristic write fd has already been acquired."),
            );
        }
        let mut mtu: u16 = 512;
        match dict_u16_at(args, 0, "mtu") {
            DictU16::Value(m) => {
                if m < 512 {
                    mtu = m;
                }
            },
            DictU16::Missing => (),
            DictU16::BadValue => {
                return Reply::error(
                    "UnexpectedType",
                    Some("Expected a UInt16 as variant type for offset key."),
                );
            },
            DictU16::NotDict => {
                return Reply::error(
                    "UnexpectedType",
                    Some("Expected a dict as first parameter"),
                );
            },
        }
        proof {
            assert(args@.skip(0) =~= args@);
        }
        match socketpair_seqpacket() {
            Some((peer, ours)) => {
                self.write_fd = Some(ours);
                let mut vals: Vec<RVal> = Vec::new();
                vals.push(RVal::Fd(peer));
                vals.push(RVal::U16(mtu));
                Reply::Success(vals)
            },
            None => Reply::error(
                "org.bluez.Error.Failed",
                Some("An IO Error occured when creating the unix datagram socket."),
            ),
        }
    }

    /// The in-progress detail string that names the active notify mode.
    pub open spec fn in_progress_detail(mode: Notify) -> Seq<char> {
        match mode {
            Notify::Signal => "This characteristic is already notifying via signals."@,
            Notify::Fd(_) => "This characteristic is already notifying via a socket."@,
        }
    }

    /// What `AcquireNotify` guarantees: gated on `notify` or `indicate`,
    /// refused while any notify mode is active (naming it), and
    /// otherwise either a descriptor plus the negotiated MTU (clamped to
    /// 255, default 255) and the fd-based mode, or a failure reply.
    pub open spec fn acquire_notify_post(pre: Self, post: Self, args: Seq<Arg>, r: Reply) -> bool {
        &&& Self::acquire_frame(pre, post)
        &&& post.write_fd == pre.write_fd
        &&& if !pre.flags.spec_notifiable() {
            r.is_err_named("org.bluez.Error.NotPermitted"@) && post == pre
        } else {
            match pre.notify {
                Option::Some(mode) => {
                    &&& (r matches Reply::Error { name, detail } && name@
                        == "org.bluez.Error.InProgress"@ && (detail matches Some(d) && d@
                        == Self::in_progress_detail(mode)))
                    &&& post == pre
                },
                Option::None => if dict_u16_bad(args, "mtu"@) {
                    r.is_err_named("UnexpectedType"@) && post == pre
                } else {
                    let mtu = if dict_u16_or(args, "mtu"@, 255) < 255 {
                        dict_u16_or(args, "mtu"@, 255)
                    } else {
                        255
                    };
                    ||| (r matches Reply::Success(vals) && vals@.len() == 2 && (vals@[0] is Fd)
                        && vals@[1] == RVal::U16(mtu) && post.notify matches Some(Notify::Fd(_)))
                    ||| (r.is_err_named("org.bluez.Error.Failed"@) && post == pre)
                },
            }
        }
    }

    /// Services `AcquireNotify`.
    pub fn acquire_notify_reply(&mut self, args: &Vec<Arg>) -> (r: Reply)
        ensures
            Self::acquire_notify_post(*old(self), *final(self), args@, r),
    {
        if !self.flags.notifiable() {
            return Reply::error(
                "org.bluez.Error.NotPermitted",
                Some("This characteristic doesn't not permit notifying."),
            );
        }
        match self.notify {
            Some(Notify::Signal) => {
                return Reply::error(
                    "org.bluez.Error.InProgress",
                    Some("This characteristic is already notifying via signals."),
                );
            },
            Some(Notify::Fd(_)) => {
                return Reply::error(
                    "org.bluez.Error.InProgress",
                    Some("This characteristic is already notifying via a socket."),
                );
            },
            None => (),
        }
        let mut mtu: u16 = 255;
        match dict_u16_at(args, 0, "mtu") {
            DictU16::Value(m) => {
                if m < 255 {
                    mtu = m;
                }
            },
            DictU16::Missing => (),
            DictU16::BadValue => {
                return Reply::error(
                    "UnexpectedType",
                    Some("Expected a dict of UInt16 as first offset type"),
                );
            },
            DictU16::NotDict => {
                return Reply::error(
                    "UnexpectedType",
                    Some("Expected a dict as first parameter"),
                );
            },
        }
        proof {
            assert(args@.skip(0) =~= args@);
        }
        match socketpair_seqpacket() {
            Some((peer, ours)) => {
                self.notify = Some(Notify::Fd(ours));
                let mut vals: Vec<RVal> = Vec::new();
                vals.push(RVal::Fd(peer));
                vals.push(RVal::U16(mtu));
                Reply::Success(vals)
            },
            None => Reply::error(
                "org.bluez.Error.Failed",
                Some("An IO Error occured when creating the unix datagram socket."),
            ),
        }
    }

    /// What `StartNotify` guarantees: gated on the `notify` flag,
    /// refused while any notify mode is active (naming it), and
    /// otherwise the transition to signal-based notifying.
    pub open spec fn start_notify_post(pre: Self, post: Self, r: Reply) -> bool {
        &&& Self::acquire_frame(pre, post)
        &&& post.write_fd == pre.write_fd
        &&& if !pre.flags.notify {
            r.is_err_named("org.bluez.Error.NotPermitted"@) && post == pre
        } else {
            match pre.notify {
                Option::Some(mode) => {
                    &&& (r matches Reply::Error { name, detail } && name@
                        == "org.bluez.Error.InProgress"@ && (detail matches Some(d) && d@
                        == Self::in_progress_detail(mode)))
                    &&& post == pre
                },
                Option::None => r.is_ok() && post.notify == Some(Notify::Signal),
            }
        }
    }

    /// Services `StartNotify`.
    pub fn start_notify_reply(&mut self) -> (r: Reply)
        ensures
            Self::start_notify_post(*old(self), *final(self), r),
    {
        if !self.flags.notify {
            return Reply::error(
                "org.bluez.Error.NotPermitted",
                Some("This characteristic doesn't not permit notifying."),
            );
        }
        match self.notify {
            Some(Notify::Signal) => Reply::error(
                "org.bluez.Error.InProgress",
                Some("This characteristic is already notifying via signals."),
            ),
            Some(Notify::Fd(_)) => Reply::error(
                "org.bluez.Error.InProgress",
                Some("This characteristic is already notifying via a socket."),
            ),
            None => {
                self.notify = Some(Notify::Signal);
                Reply::empty()
            },
        }
    }

    /// What `StopNotify` guarantees: the return to idle from either
    /// mode (closing an fd-based channel), refused when idle.
    pub open spec fn stop_notify_post(pre: Self, post: Self, r: Reply) -> bool {
        &&& Self::acquire_frame(pre, post)
        &&& post.write_fd == pre.write_fd
        &&& if pre.notify is Some {
            r.is_ok() && post.notify is None
        } else {
            r.is_err_named("org.bluez.Error.Failed"@) && post == pre
        }
    }

    /// Services `StopNotify`.
    pub fn stop_notify_reply(&mut self) -> (r: Reply)
        ensures
            Self::stop_notify_post(*old(self), *final(self), r),
    {
        match self.notify {
            Some(Notify::Fd(fd)) => {
                close_fd(fd);
                self.notify = None;
                Reply::empty()
            },
            Some(Notify::Signal) => {
                self.notify = None;
                Reply::empty()
            },
            None => Reply::error("org.bluez.Error.Failed", Some("Notify has not been started")),
        }
    }

    /// What one serviced method call guarantees, by the method the
    /// member names. Reads, writes and confirmations first drain the
    /// fast-path write descriptor; the drained datagrams' signals come
    /// first in `out.signals`.
    pub open spec fn char_call_post(pre: Self, post: Self, call: MethodCall, out: CallOutcome) -> bool {
        match method_spec(call.member@) {
            Method::ReadValue => {
                if !pre.flags.spec_readable() {
                    &&& out.reply.is_err_named("org.bluez.Error.NotPermitted"@)
                    &&& post == pre
                    &&& out.signals@.len() == 0
                } else {
                    exists|mid: Self, ds: Seq<SignalMsg>|
                        #[trigger] Self::drain_post(pre, mid, ds) && Self::read_post(
                            mid,
                            post,
                            call.args@,
                            out.reply,
                        ) && out.signals@ == ds
                }
            },
            Method::WriteValue => {
                if !pre.flags.spec_writable() {
                    &&& out.reply.is_err_named("org.bluez.Error.NotPermitted"@)
                    &&& post == pre
                    &&& out.signals@.len() == 0
                } else {
                    exists|mid: Self, ds: Seq<SignalMsg>, sig: Option<SignalMsg>|
                        #[trigger] Self::drain_post(pre, mid, ds) && #[trigger] Self::write_post(
                            mid,
                            post,
                            call.args@,
                            out.reply,
                            sig,
                        ) && out.signals@ == (match sig {
                            Some(sg) => ds.push(sg),
                            None => ds,
                        })
                }
            },
            Method::AcquireWrite => Self::acquire_write_post(pre, post, call.args@, out.reply)
                && out.signals@.len() == 0,
            Method::AcquireNotify => Self::acquire_notify_post(pre, post, call.args@, out.reply)
                && out.signals@.len() == 0,
            Method::StartNotify => Self::start_notify_post(pre, post, out.reply)
                && out.signals@.len() == 0,
            Method::StopNotify => Self::stop_notify_post(pre, post, out.reply)
                && out.signals@.len() == 0,
            Method::Confirm => Self::drain_post(pre, post, out.signals@) && out.reply.is_ok(),
            Method::Unknown => {
                &&& out.reply.is_err_named("org.freedesktop.DBus.Error.UnknownMethod"@)
                &&& post == pre
                &&& out.signals@.len() == 0
            },
        }
    }

    /// Services one bus method call against this characteristic,
    /// returning the reply and any change-notification signals to emit.
    pub fn char_call(&mut self, call: &MethodCall) -> (out: CallOutcome)
        ensures
            Self::char_call_post(*old(self), *final(self), *call, out),
    {
        match method_from_str(call.member.as_str()) {
            Method::ReadValue => {
                if !self.flags.readable() {
                    return CallOutcome {
                        reply: Reply::error(
                            "org.bluez.Error.NotPermitted",
                            Some("This is not a readable characteristic."),
                        ),
                        signals: Vec::new(),
                    };
                }
                let signals = self.check_write_fd();
                let ghost mid = *self;
                let ghost ds = signals@;
                let reply = self.read_value_reply(&call.args);
                proof {
                    assert(Self::drain_post(*old(self), mid, ds) && Self::read_post(
                        mid,
                        *self,
                        call.args@,
                        reply,
                    ));
                }
                CallOutcome { reply, signals }
            },
            Method::WriteValue => {
                if !self.flags.writable() {
                    return CallOutcome {
                        reply: Reply::error(
                            "org.bluez.Error.NotPermitted",
                            Some("This is not a writable characteristic."),
                        ),
                        signals: Vec::new(),
                    };
                }
                let mut signals = self.check_write_fd();
                let ghost mid = *self;
                let ghost ds = signals@;
                let (reply, sig) = self.write_value_reply(&call.args);
                match sig {
                    Some(sg) => {
                        let ghost sg2 = sg;
                        signals.push(sg);
                        proof {
                            assert(Self::drain_post(*old(self), mid, ds) && Self::write_post(
                                mid,
                                *self,
                                call.args@,
                                reply,
                                Some(sg2),
                            ) && signals@ == ds.push(sg2));
                        }
                    },
                    None => {
                        proof {
                            assert(Self::drain_post(*old(self), mid, ds) && Self::write_post(
                                mid,
                                *self,
                                call.args@,
                                reply,
                                Option::<SignalMsg>::None,
                            ) && signals@ == ds);
                        }
                    },
                }
                CallOutcome { reply, signals }
            },
            Method::AcquireWrite => CallOutcome {
                reply: self.acquire_write_reply(&call.args),
                signals: Vec::new(),
            },
            Method::AcquireNotify => CallOutcome {
                reply: self.acquire_notify_reply(&call.args),
                signals: Vec::new(),
            },
            Method::StartNotify => CallOutcome {
                reply: self.start_notify_reply(),
                signals: Vec::new(),
            },
            Method::StopNotify => CallOutcome {
                reply: self.stop_notify_reply(),
                signals: Vec::new(),
            },
            Method::Confirm => {
                let signals = self.check_write_fd();
                CallOutcome { reply: Reply::empty(), signals }
            },
            Method::Unknown => CallOutcome {
                reply: Reply::error("org.freedesktop.DBus.Error.UnknownMethod", None),
                signals: Vec::new(),
            },
        }
    }

    /// Swaps the stored content source with `val`, as a local write.
    pub fn write_val_or_fn(&mut self, val: &mut ValOrFn<G>)
        ensures
            final(self).vf == *old(val),
            *final(val) == old(self).vf,
            Self::same_identity(*old(self), *final(self)),
            final(self).notify == old(self).notify,
            final(self).write_fd == old(self).write_fd,
            final(self).write_callback == old(self).write_callback,
    {
        core::mem::swap(&mut self.vf, val);
    }

    /// Whether the fast-path write descriptor is acquired.
    pub fn write_acquired(&self) -> (r: bool)
        ensures
            r == (self.write_fd is Some),
    {
        self.write_fd.is_some()
    }

    /// Whether notification is fd-based right now.
    pub fn notify_acquired(&self) -> (r: bool)
        ensures
            r == (self.notify matches Some(Notify::Fd(_))),
    {
        match &self.notify {
            Some(Notify::Fd(_)) => true,
            _ => false,
        }
    }

    /// Whether any notify mode is active.
    pub fn notifying(&self) -> (r: bool)
        ensures
            r == (self.notify is Some),
    {
        self.notify.is_some()
    }

    /// The capability flags.
    pub fn get_flags(&self) -> (r: CharFlags)
        ensures
            r == self.flags,
    {
        self.flags
    }
}


/// A bus method name, decoded for dispatch.
pub enum Method {
    ReadValue,
    WriteValue,
    AcquireWrite,
    AcquireNotify,
    StartNotify,
    StopNotify,
    Confirm,
    Unknown,
}

/// The method a member name denotes.
#[verifier::opaque]
pub open spec fn method_spec(s: Seq<char>) -> Method {
    if s == "ReadValue"@ {
        Method::ReadValue
    } else if s == "WriteValue"@ {
        Method::WriteValue
    } else if s == "AcquireWrite"@ {
        Method::AcquireWrite
    } else if s == "AcquireNotify"@ {
        Method::AcquireNotify
    } else if s == "StartNotify"@ {
        Method::StartNotify
    } else if s == "StopNotify"@ {
        Method::StopNotify
    } else if s == "Confirm"@ {
        Method::Confirm
    } else {
        Method::Unknown
    }
}

/// Decodes one member name for dispatch.
pub fn method_from_str(s: &str) -> (r: Method)
    ensures
        r == method_spec(s@),
{
    proof {
        reveal(method_spec);
    }
    if str_eq(s, "ReadValue") {
        Method::ReadValue
    } else if str_eq(s, "WriteValue") {
        Method::WriteValue
    } else if str_eq(s, "AcquireWrite") {
        Method::AcquireWrite
    } else if str_eq(s, "AcquireNotify") {
        Method::AcquireNotify
    } else if str_eq(s, "StartNotify") {
        Method::StartNotify
    } else if str_eq(s, "StopNotify") {
        Method::StopNotify
    } else if str_eq(s, "Confirm") {
        Method::Confirm
    } else {
        Method::Unknown
    }
}

/// What looking a `u16` option up in an optional leading dictionary
/// argument found.
pub enum DictU16 {
    /// The key was present with a `u16` variant.
    Value(u16),
    /// No argument, or a dictionary without the key.
    Missing,
    /// The key was present with some other variant.
    BadValue,
    /// The argument was not a dictionary at all.
    NotDict,
}

/// Looks the `u16` option `key` up in the first of `args`.
pub open spec fn dict_u16_spec(args: Seq<Arg>, key: Seq<char>) -> DictU16 {
    if args.len() == 0 {
        DictU16::Missing
    } else {
        match args[0] {
            Arg::Dict(d) => match d.spec_get(key) {
                Some(DictValue::U16(o)) => DictU16::Value(o),
                Some(_) => DictU16::BadValue,
                None => DictU16::Missing,
            },
            _ => DictU16::NotDict,
        }
    }
}

/// Whether the optional leading options dictionary is malformed for a
/// `u16` under `key`: a first argument that is not a dictionary, or a
/// dictionary whose `key` entry is not a `u16`.
pub open spec fn dict_u16_bad(args: Seq<Arg>, key: Seq<char>) -> bool {
    dict_u16_spec(args, key) is BadValue || dict_u16_spec(args, key) is NotDict
}

/// The `u16` under `key` in the optional leading options dictionary, or
/// `dflt` when absent.
pub open spec fn dict_u16_or(args: Seq<Arg>, key: Seq<char>, dflt: u16) -> u16 {
    match dict_u16_spec(args, key) {
        DictU16::Value(o) => o,
        _ => dflt,
    }
}

/// Looks the `u16` option `key` up in `args[idx]`.
pub fn dict_u16_at(args: &Vec<Arg>, idx: usize, key: &str) -> (r: DictU16)
    requires
        idx <= args@.len(),
    ensures
        r == dict_u16_spec(args@.skip(idx as int), key@),
{
    if idx >= args.len() {
        proof {
            assert(args@.skip(idx as int) =~= Seq::<Arg>::empty());
        }
        return DictU16::Missing;
    }
    proof {
        assert(args@.skip(idx as int)[0] == args@[idx as int]);
    }
    match &args[idx] {
        Arg::Dict(d) => match d.get(key) {
            Some(DictValue::U16(o)) => DictU16::Value(*o),
            Some(_) => DictU16::BadValue,
            None => DictU16::Missing,
        },
        _ => DictU16::NotDict,
    }
}

/// Whether `WriteValue`'s arguments are malformed: no byte-array first
/// argument, or a malformed options dictionary second.
pub open spec fn write_args_bad(args: Seq<Arg>) -> bool {
    ||| args.len() == 0
    ||| !(args[0] is Bytes)
    ||| dict_u16_bad(args.skip(1), "offset"@)
}

/// `WriteValue`'s payload bytes.
pub open spec fn write_payload(args: Seq<Arg>) -> Seq<u8> {
    match args[0] {
        Arg::Bytes(b) => b@,
        _ => Seq::empty(),
    }
}

/// `WriteValue`'s offset, zero when absent.
pub open spec fn write_offset(args: Seq<Arg>) -> u16 {
    dict_u16_or(args.skip(1), "offset"@, 0)
}

/// The property-changed signal for a characteristic value: emitted on
/// the properties interface, naming the characteristic interface, with a
/// one-entry dictionary from the value property to the bytes and an
/// empty invalidated list.
pub open spec fn value_changed_signal(path: Seq<u8>, bytes: Seq<u8>, s: SignalMsg) -> bool {
    &&& s.path@ == path
    &&& s.interface@ == "org.freedesktop.DBus.Properties"@
    &&& s.member@ == "PropertiesChanged"@
    &&& s.args@.len() == 3
    &&& (s.args@[0] matches Arg::Str(i) && i@ == "org.bluez.GattCharacteristic1"@)
    &&& (s.args@[1] matches Arg::Dict(d) && d.key_seq() == seq!["Value"@] && (d.spec_get(
        "Value"@,
    ) matches Some(DictValue::Bytes(b)) && b@ == bytes))
    &&& (s.args@[2] matches Arg::StrArr(e) && e@.len() == 0)
}

/// One method call's outcome: the reply for the caller and any signals
/// for the transport to emit.
pub struct CallOutcome {
    pub reply: Reply,
    pub signals: Vec<SignalMsg>,
}

impl<G: ValueSource, CB: WriteCallback<G>> LocalCharBase<G, CB> {
    /// The parts of the state that servicing a call never touches, and
    /// the stored content's variant: a materialized value stays one.
    pub open spec fn frame(pre: Self, post: Self) -> bool {
        &&& Self::same_identity(pre, post)
        &&& post.vf.is_value() == pre.vf.is_value()
        &&& (pre.vf.is_value() && post.vf.bytes() == pre.vf.bytes() ==> post.vf == pre.vf)
    }

    /// What `notify` guarantees: nothing in idle, an exact signal in
    /// signal mode, and a datagram send in fd mode that on failure
    /// closes the channel and falls back to idle.
    pub open spec fn notify_post(pre: Self, post: Self, r: Option<SignalMsg>) -> bool {
        &&& Self::same_identity(pre, post)
        &&& post.write_fd == pre.write_fd
        &&& post.write_callback == pre.write_callback
        &&& post.vf.is_value() == pre.vf.is_value()
        &&& (pre.vf.is_value() ==> post.vf == pre.vf)
        &&& match pre.notify {
            Option::None => post == pre && r is None,
            Option::Some(Notify::Signal) => {
                &&& post.notify == pre.notify
                &&& (r matches Some(sig) && value_changed_signal(pre.path@, pre.vf.bytes(), sig))
            },
            Option::Some(Notify::Fd(_)) => {
                &&& r is None
                &&& (post.notify == pre.notify || post.notify is None)
            },
        }
    }

    /// Emits the current value on the active notify channel: a signal
    /// for the caller to send in signal mode, a datagram in fd mode.
    pub fn notify(&mut self) -> (r: Option<SignalMsg>)
        ensures
            Self::notify_post(*old(self), *final(self), r),
    {
        match self.notify {
            Option::None => None,
            Option::Some(Notify::Signal) => Some(self.signal_change()),
            Option::Some(Notify::Fd(fd)) => {
                let cv = self.vf.to_value();
                if !send_datagram(fd, cv.as_slice()) {
                    close_fd(fd);
                    self.notify = None;
                }
                None
            },
        }
    }

    /// Builds the property-changed signal that announces the current
    /// value.
    pub fn signal_change(&mut self) -> (s: SignalMsg)
        ensures
            Self::same_identity(*old(self), *final(self)),
            final(self).notify == old(self).notify,
            final(self).write_fd == old(self).write_fd,
            final(self).write_callback == old(self).write_callback,
            final(self).vf.is_value() == old(self).vf.is_value(),
            old(self).vf.is_value() ==> final(self).vf == old(self).vf,
            value_changed_signal(old(self).path@, old(self).vf.bytes(), s),
    {
        let cv = self.vf.to_value();
        let mut bv: Vec<u8> = Vec::new();
        bv.extend_from_slice(cv.as_slice());
        proof {
            assert(bv@ =~= old(self).vf.bytes());
        }
        let mut d: PropDict = StrMap::new();
        proof {
            assert(d.key_seq() =~= Seq::<Seq<char>>::empty());
        }
        d.insert(String::from_str("Value"), DictValue::Bytes(bv));
        proof {
            assert(d.key_seq() =~= seq!["Value"@]);
        }
        let a0 = Arg::Str(String::from_str("org.bluez.GattCharacteristic1"));
        let a2 = Arg::StrArr(Vec::new());
        let mut args: Vec<Arg> = Vec::new();
        args.push(a0);
        args.push(Arg::Dict(d));
        args.push(a2);
        let s = SignalMsg {
            path: self.path.clone(),
            interface: String::from_str("org.freedesktop.DBus.Properties"),
            member: String::from_str("PropertiesChanged"),
            args,
        };
        proof {
            assert(s.args@.len() == 3);
            assert(value_changed_signal(old(self).path@, old(self).vf.bytes(), s));
        }
        s
    }

    /// What servicing one fast-path datagram guarantees: with no
    /// callback the bytes become the stored value verbatim; with one,
    /// the callback's decision is applied as for `WriteValue`, except
    /// that a rejection is dropped silently.
    pub open spec fn fast_write_post(
        pre: Self,
        post: Self,
        bytes: Seq<u8>,
        r: Option<SignalMsg>,
    ) -> bool {
        &&& Self::same_identity(pre, post)
        &&& post.write_fd == pre.write_fd
        &&& (post.notify == pre.notify || post.notify is None)
        &&& match pre.write_callback {
            Option::None => {
                &&& post.vf.is_value()
                &&& post.vf.bytes() == bytes
                &&& post.notify == pre.notify
                &&& post.write_callback is None
                &&& r is None
            },
            Option::Some(cb) => {
                &&& (post.write_callback is Some)
                &&& match cb.outcome_spec(bytes) {
                    OutcomeView::Reject { .. } => {
                        &&& post.vf == pre.vf
                        &&& post.notify == pre.notify
                        &&& r is None
                    },
                    OutcomeView::Accept { replace, materialized, notify } => {
                        let committed = match replace {
                            Some(b) => b,
                            None => bytes,
                        };
                        &&& (!notify ==> post.vf.bytes() == committed && post.notify == pre.notify
                            && r is None)
                        &&& (replace is None ==> post.vf.is_value() && post.vf.bytes() == bytes)
                        &&& (materialized ==> post.vf.is_value() && post.vf.bytes() == committed)
                        &&& (notify ==> match pre.notify {
                            Option::None => post.notify is None && r is None,
                            Option::Some(Notify::Signal) => post.notify == pre.notify && (
                            r matches Some(sig) && value_changed_signal(pre.path@, committed,
                                sig)),
                            Option::Some(Notify::Fd(_)) => r is None && (post.notify
                                == pre.notify || post.notify is None),
                        })
                    },
                }
            },
        }
    }

    /// Commits an accepted write: installs the replacement content or
    /// the overlaid value, then emits a change notification if asked.
    fn commit_write(&mut self, newv: CharValue, replace: Option<ValOrFn<G>>, do_notify: bool) -> (r:
        Option<SignalMsg>)
        ensures
            Self::same_identity(*old(self), *final(self)),
            final(self).write_fd == old(self).write_fd,
            final(self).write_callback == old(self).write_callback,
            ({
                let committed = match replace {
                    Some(vf2) => vf2.bytes(),
                    None => newv@,
                };
                &&& (!do_notify ==> final(self).vf.bytes() == committed && final(self).notify
                    == old(self).notify && r is None)
                &&& (replace is None && !do_notify ==> final(self).vf.is_value())
                &&& (replace is None ==> final(self).vf.is_value() && final(self).vf.bytes()
                    == newv@)
                &&& (match replace {
                    Option::Some(vf2) => vf2.is_value() ==> final(self).vf == vf2,
                    Option::None => true,
                })
                &&& (do_notify ==> match old(self).notify {
                    Option::None => final(self).notify is None && r is None,
                    Option::Some(Notify::Signal) => final(self).notify == old(self).notify && (
                    r matches Some(sig) && value_changed_signal(old(self).path@, committed, sig)),
                    Option::Some(Notify::Fd(_)) => r is None && (final(self).notify == old(
                        self,
                    ).notify || final(self).notify is None),
                })
            }),
    {
        match replace {
            Some(vf2) => {
                self.vf = vf2;
            },
            None => {
                self.vf = ValOrFn::Value(newv);
            },
        }
        if do_notify {
            self.notify()
        } else {
            None
        }
    }

    /// Services one fast-path write datagram: exactly a `WriteValue` of
    /// the bytes at offset zero, except that a rejection by the callback
    /// has no reply to carry it and is dropped.
    #[verifier::rlimit(100)]
    pub fn apply_fast_write(&mut self, bytes: &[u8]) -> (r: Option<SignalMsg>)
        requires
            bytes@.len() <= 512,
        ensures
            Self::fast_write_post(*old(self), *final(self), bytes@, r),
    {
        let newv = CharValue::from_slice(bytes);
        let mut cb_opt: Option<CB> = None;
        core::mem::swap(&mut cb_opt, &mut self.write_callback);
        match cb_opt {
            Option::None => {
                self.vf = ValOrFn::Value(newv);
                None
            },
            Option::Some(mut cb) => {
                let out = cb.on_write(newv.as_slice());
                self.write_callback = Some(cb);
                match out {
                    WriteOutcome::Reject { .. } => None,
                    WriteOutcome::Accept { replace, notify } => self.commit_write(
                        newv,
                        replace,
                        notify,
                    ),
                }
            },
        }
    }


    /// What `ReadValue` (after draining) guarantees: permission gating,
    /// option validation, and the value's bytes from the clamped offset.
    pub open spec fn read_post(pre: Self, post: Self, args: Seq<Arg>, r: Reply) -> bool {
        &&& Self::frame(pre, post)
        &&& post.notify == pre.notify
        &&& post.write_fd == pre.write_fd
        &&& post.write_callback == pre.write_callback
        &&& if !pre.flags.spec_readable() {
            r.is_err_named("org.bluez.Error.NotPermitted"@) && post == pre
        } else if dict_u16_bad(args, "offset"@) {
            r.is_err_named("UnexpectedType"@)
        } else {
            let bytes = pre.vf.bytes();
            let off = dict_u16_or(args, "offset"@, 0) as int;
            let start = if off < bytes.len() {
                off
            } else {
                bytes.len() as int
            };
            r matches Reply::Success(vals) && vals@.len() == 1 && (vals@[0] matches RVal::Bytes(b)
                && b@ == bytes.skip(start))
        }
    }

    /// Services `ReadValue` once pending fast-path writes are drained.
    #[verifier::loop_isolation(false)]
    pub fn read_value_reply(&mut self, args: &Vec<Arg>) -> (r: Reply)
        ensures
            Self::read_post(*old(self), *final(self), args@, r),
    {
        if !self.flags.readable() {
            return Reply::error(
                "org.bluez.Error.NotPermitted",
                Some("This is not a readable characteristic."),
            );
        }
        let cv = self.vf.to_value();
        let start: usize;
        match dict_u16_at(args, 0, "offset") {
            DictU16::Value(o) => {
                start = if (o as usize) < cv.len() {
                    o as usize
                } else {
                    cv.len()
                };
            },
            DictU16::Missing => {
                start = 0;
            },
            DictU16::BadValue => {
                return Reply::error(
                    "UnexpectedType",
                    Some("Expected a dict of variants as first parameter"),
                );
            },
            DictU16::NotDict => {
                return Reply::error(
                    "UnexpectedType",
                    Some("Expected a dict as first parameter"),
                );
            },
        }
        proof {
            assert(args@.skip(0) =~= args@);
        }
        let mut out: Vec<u8> = Vec::new();
        let n = cv.len();
        let mut i: usize = start;
        proof {
            assert(out@ =~= cv@.subrange(start as int, start as int));
        }
        while i < n
            invariant
                start <= i <= n,
                n == cv@.len(),
                out@ == cv@.subrange(start as int, i as int),
            decreases n - i,
        {
            let b = cv.as_slice()[i];
            out.push(b);
            proof {
                assert(out@ =~= cv@.subrange(start as int, i as int + 1));
            }
            i = i + 1;
        }
        proof {
            assert(out@ =~= cv@.skip(start as int));
        }
        let mut vals: Vec<RVal> = Vec::new();
        vals.push(RVal::Bytes(out));
        Reply::Success(vals)
    }

    /// What `WriteValue` (after draining) guarantees: permission gating,
    /// argument validation, the length ceiling, and the callback's
    /// accept/reject contract over the overlaid bytes.
    pub open spec fn write_post(
        pre: Self,
        post: Self,
        args: Seq<Arg>,
        r: Reply,
        sig: Option<SignalMsg>,
    ) -> bool {
        &&& Self::same_identity(pre, post)
        &&& post.write_fd == pre.write_fd
        &&& (post.write_callback is Some <==> pre.write_callback is Some)
        &&& (post.notify == pre.notify || post.notify is None)
        &&& if !pre.flags.spec_writable() {
            r.is_err_named("org.bluez.Error.NotPermitted"@) && post == pre && sig is None
        } else if write_args_bad(args) {
            r.is_err_named("org.bluez.Error.Failed"@) && post == pre && sig is None
        } else if write_offset(args) + write_payload(args).len() > 512 {
            r.is_err_named("org.bluez.Error.InvalidValueLength"@) && post == pre && sig is None
        } else if write_offset(args) > pre.vf.bytes().len() {
            &&& r.is_err_named("org.bluez.Error.InvalidValueLength"@)
            &&& sig is None
            &&& post.notify == pre.notify
            &&& post.write_callback == pre.write_callback
            &&& (pre.vf.is_value() ==> post == pre)
        } else {
            let overlaid = pre.vf.bytes().take(write_offset(args) as int) + write_payload(args);
            match pre.write_callback {
                Option::None => {
                    &&& post.vf.is_value()
                    &&& post.vf.bytes() == overlaid
                    &&& r.is_ok()
                    &&& sig is None
                    &&& post.notify == pre.notify
                    &&& post.write_callback is None
                },
                Option::Some(cb) => match cb.outcome_spec(overlaid) {
                    OutcomeView::Reject { name, detail } => {
                        &&& (r matches Reply::Error { name: n, detail: d } && n@ == name && (
                        match (d, detail) {
                            (Some(ds), Some(dv)) => ds@ == dv,
                            (Option::None, Option::None) => true,
                            _ => false,
                        }))
                        &&& (pre.vf.is_value() ==> post.vf == pre.vf)
                        &&& sig is None
                        &&& post.notify == pre.notify
                    },
                    OutcomeView::Accept { replace, materialized, notify } => {
                        let committed = match replace {
                            Some(b) => b,
                            None => overlaid,
                        };
                        &&& r.is_ok()
                        &&& (!notify ==> post.vf.bytes() == committed && post.notify == pre.notify
                            && sig is None)
                        &&& (replace is None ==> post.vf.is_value() && post.vf.bytes() == overlaid)
                        &&& (materialized ==> post.vf.is_value() && post.vf.bytes() == committed)
                        &&& (notify ==> match pre.notify {
                            Option::None => post.notify is None && sig is None,
                            Option::Some(Notify::Signal) => post.notify == pre.notify && (
                            sig matches Some(sg) && value_changed_signal(pre.path@, committed,
                                sg)),
                            Option::Some(Notify::Fd(_)) => sig is None,
                        })
                    },
                },
            }
        }
    }

    /// Services `WriteValue` once pending fast-path writes are drained:
    /// overlays the payload at the offset, consults the callback, and
    /// commits per its decision.
    #[verifier::rlimit(100)]
    pub fn write_value_reply(&mut self, args: &Vec<Arg>) -> (r: (Reply, Option<SignalMsg>))
        ensures
            Self::write_post(*old(self), *final(self), args@, r.0, r.1),
    {
        if !self.flags.writable() {
            return (
                Reply::error(
                    "org.bluez.Error.NotPermitted",
                    Some("This is not a writable characteristic."),
                ),
                None,
            );
        }
        if args.len() == 0 {
            return (
                Reply::error("org.bluez.Error.Failed", Some("First parameter was wrong type")),
                None,
            );
        }
        let payload: &Vec<u8> = match &args[0] {
            Arg::Bytes(b) => b,
            _ => {
                return (
                    Reply::error(
                        "org.bluez.Error.Failed",
                        Some("First parameter was wrong type"),
                    ),
                    None,
                );
            },
        };
        let off16: u16;
        match dict_u16_at(args, 1, "offset") {
            DictU16::Value(o) => {
                off16 = o;
            },
            DictU16::Missing => {
                off16 = 0;
            },
            DictU16::BadValue => {
                return (
                    Reply::error(
                        "org.bluez.Error.Failed",
                        Some("Expected offset key to be u16 value"),
                    ),
                    None,
                );
            },
            DictU16::NotDict => {
                return (
                    Reply::error(
                        "org.bluez.Error.Failed",
                        Some("Second parameter was wrong type"),
                    ),
                    None,
                );
            },
        }
        if payload.len() > 512 {
            return (Reply::error("org.bluez.Error.InvalidValueLength", None), None);
        }
        let total: usize = off16 as usize + payload.len();
        if total > 512 {
            return (Reply::error("org.bluez.Error.InvalidValueLength", None), None);
        }
        let mut cur = self.vf.to_value();
        if off16 as usize > cur.len() {
            return (Reply::error("org.bluez.Error.InvalidValueLength", None), None);
        }
        cur.update(payload.as_slice(), off16 as usize);
        proof {
            assert(args@.skip(1).len() == args@.len() - 1);
            assert(cur@ =~= old(self).vf.bytes().take(write_offset(args@) as int) + write_payload(
                args@,
            ));
        }
        let mut cb_opt: Option<CB> = None;
        core::mem::swap(&mut cb_opt, &mut self.write_callback);
        match cb_opt {
            Option::None => {
                self.vf = ValOrFn::Value(cur);
                (Reply::empty(), None)
            },
            Option::Some(mut cb) => {
                let out = cb.on_write(cur.as_slice());
                self.write_callback = Some(cb);
                match out {
                    WriteOutcome::Reject { name, detail } => {
                        (Reply::Error { name, detail }, None)
                    },
                    WriteOutcome::Accept { replace, notify } => {
                        let sig = self.commit_write(cur, replace, notify);
                        (Reply::empty(), sig)
                    },
                }
            },
        }
    }

    /// What draining the fast-path write descriptor guarantees of every
    /// outcome: the identity is untouched, the descriptor survives or is
    /// closed, and with no descriptor or no callback nothing else moves.
    pub open spec fn drain_post(pre: Self, post: Self, sigs: Seq<SignalMsg>) -> bool {
        &&& Self::same_identity(pre, post)
        &&& (post.write_fd == pre.write_fd || post.write_fd is None)
        &&& (post.notify == pre.notify || post.notify is None)
        &&& (post.write_callback is Some <==> pre.write_callback is Some)
        &&& (pre.write_fd is None ==> post == pre && sigs.len() == 0)
        &&& (pre.write_callback is None ==> sigs.len() == 0 && post.notify == pre.notify
            && post.write_callback is None)
    }

    /// Drains pending fast-path write datagrams, servicing each like a
    /// `WriteValue` at offset zero, so that a subsequent read observes
    /// the latest value. A hard socket error closes and clears the
    /// descriptor. At most a bounded batch is drained per call.
    pub fn check_write_fd(&mut self) -> (sigs: Vec<SignalMsg>)
        ensures
            Self::drain_post(*old(self), *final(self), sigs@),
    {
        let mut sigs: Vec<SignalMsg> = Vec::new();
        let fd = match self.write_fd {
            Some(fd) => fd,
            None => {
                return sigs;
            },
        };
        let mut budget: usize = 4096;
        while budget > 0
            invariant
                Self::same_identity(*old(self), *self),
                self.write_fd == old(self).write_fd || self.write_fd is None,
                self.notify == old(self).notify || self.notify is None,
                (self.write_callback is Some <==> old(self).write_callback is Some),
                old(self).write_callback is None ==> sigs@.len() == 0 && self.notify == old(
                    self,
                ).notify && self.write_callback is None,
            decreases budget,
        {
            budget = budget - 1;
            let cur_fd = match self.write_fd {
                Some(f) => f,
                None => {
                    break ;
                },
            };
            match recv_datagram_nonblocking(cur_fd, 512) {
                RecvOutcome::Data(v) => {
                    if let Some(sig) = self.apply_fast_write(v.as_slice()) {
                        sigs.push(sig);
                    }
                },
                RecvOutcome::WouldBlock => {
                    break ;
                },
                RecvOutcome::Failed => {
                    close_fd(cur_fd);
                    self.write_fd = None;
                    break ;
                },
            }
        }
        sigs
    }
}


/// One characteristic property, decoded for dispatch.
pub enum CharProp {
    Uuid,
    Service,
    Value,
    WriteAcquired,
    NotifyAcquired,
    Notifying,
    Flags,
    Handle,
    Unknown,
}

/// The property a characteristic property name denotes.
#[verifier::opaque]
pub open spec fn char_prop_spec(s: Seq<char>) -> CharProp {
    if s == "UUID"@ {
        CharProp::Uuid
    } else if s == "Service"@ {
        CharProp::Service
    } else if s == "Value"@ {
        CharProp::Value
    } else if s == "WriteAcquired"@ {
        CharProp::WriteAcquired
    } else if s == "NotifyAcquired"@ {
        CharProp::NotifyAcquired
    } else if s == "Notifying"@ {
        CharProp::Notifying
    } else if s == "Flags"@ {
        CharProp::Flags
    } else if s == "Handle"@ {
        CharProp::Handle
    } else {
        CharProp::Unknown
    }
}

/// Decodes one characteristic property name.
#[verifier::rlimit(60)]
pub fn char_prop_from_str(s: &str) -> (r: CharProp)
    ensures
        r == char_prop_spec(s@),
{
    proof {
        reveal(char_prop_spec);
    }
    if str_eq(s, "UUID") {
        CharProp::Uuid
    } else if str_eq(s, "Service") {
        CharProp::Service
    } else if str_eq(s, "Value") {
        CharProp::Value
    } else if str_eq(s, "WriteAcquired") {
        CharProp::WriteAcquired
    } else if str_eq(s, "NotifyAcquired") {
        CharProp::NotifyAcquired
    } else if str_eq(s, "Notifying") {
        CharProp::Notifying
    } else if str_eq(s, "Flags") {
        CharProp::Flags
    } else if str_eq(s, "Handle") {
        CharProp::Handle
    } else {
        CharProp::Unknown
    }
}

impl<G: ValueSource, CB: WriteCallback<G>> LocalCharBase<G, CB> {
    /// Produces one characteristic property as a wire variant, or
    /// `None` for an unknown interface or property. Reading the value
    /// property may run the content generator; everything else is
    /// side-effect-free.
    pub fn get_inner(&mut self, interface: &str, prop: &str) -> (r: Option<Arg>)
        ensures
            Self::same_identity(*old(self), *final(self)),
            final(self).notify == old(self).notify,
            final(self).write_fd == old(self).write_fd,
            final(self).write_callback == old(self).write_callback,
            final(self).vf.is_value() == old(self).vf.is_value(),
            old(self).vf.is_value() ==> final(self).vf == old(self).vf,
            interface@ != "org.bluez.GattCharacteristic1"@ ==> r is None && *final(self) == *old(
                self,
            ),
            interface@ == "org.bluez.GattCharacteristic1"@ ==> match char_prop_spec(prop@) {
                CharProp::Uuid => r matches Some(Arg::Str(u)) && u@ == old(self).uuid@,
                CharProp::Service => r matches Some(Arg::Path(p)) && p@
                    == crate::path::parent_of_spec(old(self).path@),
                CharProp::Value => r matches Some(Arg::Bytes(b)) && b@ == old(self).vf.bytes(),
                CharProp::WriteAcquired => r == Some(
                    Arg::Bool(old(self).write_fd is Some),
                ),
                CharProp::NotifyAcquired => r == Some(
                    Arg::Bool(old(self).notify matches Some(Notify::Fd(_))),
                ),
                CharProp::Notifying => r == Some(Arg::Bool(old(self).notify is Some)),
                CharProp::Flags => r matches Some(Arg::StrArr(v)) && crate::strutil::strs_view(v@)
                    == old(self).flags.to_strings_spec(),
                CharProp::Handle => r == Some(Arg::U16(old(self).handle)),
                CharProp::Unknown => r is None,
            },
    {
        if !str_eq(interface, "org.bluez.GattCharacteristic1") {
            return None;
        }
        match char_prop_from_str(prop) {
            CharProp::Uuid => Some(Arg::Str(self.uuid.clone())),
            CharProp::Service => Some(
                Arg::Path(crate::path::parent_of(self.path.as_slice())),
            ),
            CharProp::Value => {
                let cv = self.vf.to_value();
                let mut b: Vec<u8> = Vec::new();
                b.extend_from_slice(cv.as_slice());
                proof {
                    assert(b@ =~= old(self).vf.bytes());
                }
                Some(Arg::Bytes(b))
            },
            CharProp::WriteAcquired => Some(Arg::Bool(self.write_fd.is_some())),
            CharProp::NotifyAcquired => Some(Arg::Bool(self.notify_acquired())),
            CharProp::Notifying => Some(Arg::Bool(self.notify.is_some())),
            CharProp::Flags => Some(Arg::StrArr(self.flags.to_strings())),
            CharProp::Handle => Some(Arg::U16(self.handle)),
            CharProp::Unknown => None,
        }
    }

    /// Applies one property write: only the handle, under the
    /// characteristic interface, with a `u16` variant. `None` reports
    /// success; otherwise the error name comes back.
    pub fn set_inner(&mut self, interface: &str, prop: &str, val: &DictValue) -> (r: Option<
        String,
    >)
        ensures
            final(self).vf == old(self).vf,
            final(self).notify == old(self).notify,
            final(self).write_fd == old(self).write_fd,
            final(self).write_callback == old(self).write_callback,
            final(self).uuid == old(self).uuid,
            final(self).path == old(self).path,
            final(self).flags == old(self).flags,
            final(self).descs == old(self).descs,
            if interface@ == "org.freedesktop.DBus.Properties"@ {
                (r matches Some(e) && e@ == "UnknownProperty"@) && *final(self) == *old(self)
            } else if interface@ != "org.bluez.GattCharacteristic1"@ {
                (r matches Some(e) && e@ == "UnknownInterface"@) && *final(self) == *old(self)
            } else if !(char_prop_spec(prop@) is Handle) {
                (r matches Some(e) && e@ == "UnknownProperty"@) && *final(self) == *old(self)
            } else {
                match val {
                    DictValue::U16(h) => r is None && final(self).handle == h,
                    _ => (r matches Some(e) && e@ == "UnexpectedType"@) && *final(self) == *old(
                        self,
                    ),
                }
            },
    {
        if str_eq(interface, "org.freedesktop.DBus.Properties") {
            return Some(String::from_str("UnknownProperty"));
        }
        if !str_eq(interface, "org.bluez.GattCharacteristic1") {
            return Some(String::from_str("UnknownInterface"));
        }
        match char_prop_from_str(prop) {
            CharProp::Handle => match val {
                DictValue::U16(h) => {
                    self.handle = *h;
                    None
                },
                _ => Some(String::from_str("UnexpectedType")),
            },
            _ => Some(String::from_str("UnknownProperty")),
        }
    }

    /// A local read: drains the fast path, then hands back an
    /// already-resolved pending value, plus any signals to emit.
    pub fn read(&mut self) -> (r: (crate::pending::Pending<CharValue>, Vec<SignalMsg>))
        ensures
            Self::same_identity(*old(self), *final(self)),
            exists|mid: Self, ds: Seq<SignalMsg>|
                #[trigger] Self::drain_post(*old(self), mid, ds) && r.1@ == ds && (
                r.0 matches crate::pending::Pending::Resolved(cv) && cv@ == mid.vf.bytes()) && (
                final(self).notify == mid.notify && final(self).write_fd == mid.write_fd && final(self).write_callback == mid.write_callback && final(self).vf.is_value()
                    == mid.vf.is_value() && (mid.vf.is_value() ==> final(self).vf == mid.vf)),
    {
        let (cv, sigs) = self.read_wait();
        (crate::pending::Pending::Resolved(cv), sigs)
    }

    /// A local read that completes immediately: drains the fast path,
    /// then produces the current value.
    pub fn read_wait(&mut self) -> (r: (CharValue, Vec<SignalMsg>))
        ensures
            Self::same_identity(*old(self), *final(self)),
            exists|mid: Self, ds: Seq<SignalMsg>|
                #[trigger] Self::drain_post(*old(self), mid, ds) && r.1@ == ds && r.0@
                    == mid.vf.bytes() && (final(self).notify == mid.notify && final(self).write_fd
                    == mid.write_fd && final(self).write_callback == mid.write_callback && final(self).vf.is_value() == mid.vf.is_value() && (mid.vf.is_value() ==> final(self).vf
                    == mid.vf)),
    {
        let sigs = self.check_write_fd();
        let ghost mid = *self;
        let ghost ds = sigs@;
        let cv = self.vf.to_value();
        proof {
            assert(Self::drain_post(*old(self), mid, ds) && sigs@ == ds && cv@ == mid.vf.bytes());
        }
        (cv, sigs)
    }

    /// A local read of the cached value; for a local characteristic it
    /// is the same as `read_wait`.
    pub fn read_cached(&mut self) -> (r: (CharValue, Vec<SignalMsg>))
        ensures
            Self::same_identity(*old(self), *final(self)),
            exists|mid: Self, ds: Seq<SignalMsg>|
                #[trigger] Self::drain_post(*old(self), mid, ds) && r.1@ == ds && r.0@
                    == mid.vf.bytes() && (final(self).notify == mid.notify && final(self).write_fd
                    == mid.write_fd && final(self).write_callback == mid.write_callback && final(self).vf.is_value() == mid.vf.is_value() && (mid.vf.is_value() ==> final(self).vf
                    == mid.vf)),
    {
        self.read_wait()
    }

    /// A local write: drains the fast path, then stores the bytes as
    /// the new materialized value, handing back an already-resolved
    /// pending unit plus any signals to emit.
    pub fn write(&mut self, val: &[u8]) -> (r: (crate::pending::Pending<()>, Vec<SignalMsg>))
        requires
            val@.len() <= 512,
        ensures
            Self::same_identity(*old(self), *final(self)),
            final(self).vf.is_value(),
            final(self).vf.bytes() == val@,
            r.0 is Resolved,
            exists|mid: Self, ds: Seq<SignalMsg>|
                #[trigger] Self::drain_post(*old(self), mid, ds) && r.1@ == ds && (final(self).notify == mid.notify && final(self).write_fd == mid.write_fd && final(self).write_callback == mid.write_callback),
    {
        let sigs = self.write_wait(val);
        (crate::pending::Pending::Resolved(()), sigs)
    }

    /// A local write that completes immediately.
    pub fn write_wait(&mut self, val: &[u8]) -> (sigs: Vec<SignalMsg>)
        requires
            val@.len() <= 512,
        ensures
            Self::same_identity(*old(self), *final(self)),
            final(self).vf.is_value(),
            final(self).vf.bytes() == val@,
            exists|mid: Self, ds: Seq<SignalMsg>|
                #[trigger] Self::drain_post(*old(self), mid, ds) && sigs@ == ds && (final(self).notify == mid.notify && final(self).write_fd == mid.write_fd && final(self).write_callback == mid.write_callback),
    {
        let sigs = self.check_write_fd();
        let ghost mid = *self;
        let ghost ds = sigs@;
        self.vf = ValOrFn::Value(CharValue::from_slice(val));
        proof {
            assert(Self::drain_post(*old(self), mid, ds));
        }
        sigs
    }
}

/// After `StartNotify` succeeds, a second `StartNotify` always fails
/// with the in-progress error naming the signal mode and leaves the
/// state unchanged.
pub proof fn lemma_start_notify_excludes_start<G: ValueSource, CB: WriteCallback<G>>(
    s0: LocalCharBase<G, CB>,
    s1: LocalCharBase<G, CB>,
    s2: LocalCharBase<G, CB>,
    r1: Reply,
    r2: Reply,
)
    requires
        LocalCharBase::start_notify_post(s0, s1, r1),
        r1.is_ok(),
        LocalCharBase::start_notify_post(s1, s2, r2),
    ensures
        r2.is_err_named("org.bluez.Error.InProgress"@),
        s2 == s1,
        r2 matches Reply::Error { detail, .. } && (detail matches Some(d) && d@
            == "This characteristic is already notifying via signals."@),
{
}

/// After `StartNotify` succeeds, any `AcquireNotify` always fails with
/// the in-progress error naming the signal mode and leaves the state
/// unchanged.
pub proof fn lemma_start_notify_excludes_acquire<G: ValueSource, CB: WriteCallback<G>>(
    s0: LocalCharBase<G, CB>,
    s1: LocalCharBase<G, CB>,
    s2: LocalCharBase<G, CB>,
    r1: Reply,
    r2: Reply,
    args: Seq<Arg>,
)
    requires
        LocalCharBase::start_notify_post(s0, s1, r1),
        r1.is_ok(),
        LocalCharBase::acquire_notify_post(s1, s2, args, r2),
    ensures
        r2.is_err_named("org.bluez.Error.InProgress"@),
        s2 == s1,
{
}

/// After `StopNotify` succeeds, a fresh `StartNotify` succeeds again
/// and returns to signal-based notifying.
pub proof fn lemma_stop_notify_reenables_start<G: ValueSource, CB: WriteCallback<G>>(
    s1: LocalCharBase<G, CB>,
    s2: LocalCharBase<G, CB>,
    s3: LocalCharBase<G, CB>,
    r2: Reply,
    r3: Reply,
)
    requires
        s1.flags.notify,
        LocalCharBase::stop_notify_post(s1, s2, r2),
        r2.is_ok(),
        LocalCharBase::start_notify_post(s2, s3, r3),
    ensures
        r3.is_ok(),
        s3.notify == Some(Notify::Signal),
{
}

/// A fast-path write with no registered callback is reflected verbatim
/// in a subsequent read from offset zero: the bytes written equal the
/// bytes read.
pub proof fn lemma_fast_write_read_back<G: ValueSource, CB: WriteCallback<G>>(
    s0: LocalCharBase<G, CB>,
    s1: LocalCharBase<G, CB>,
    s2: LocalCharBase<G, CB>,
    bytes: Seq<u8>,
    sig: Option<SignalMsg>,
    args: Seq<Arg>,
    r: Reply,
)
    requires
        s0.write_callback is None,
        LocalCharBase::fast_write_post(s0, s1, bytes, sig),
        s1.flags.spec_readable(),
        !dict_u16_bad(args, "offset"@),
        dict_u16_or(args, "offset"@, 0) == 0,
        LocalCharBase::read_post(s1, s2, args, r),
    ensures
        r matches Reply::Success(vals) && vals@.len() == 1 && (vals@[0] matches RVal::Bytes(b)
            && b@ == bytes),
{
    assert(s1.vf.bytes() == bytes);
    assert(s1.vf.bytes().skip(0) =~= s1.vf.bytes());
}

/// A write whose callback rejects it leaves a materialized stored value
/// byte-for-byte unchanged, and the error reply carries exactly the
/// callback's two strings.
pub proof fn lemma_rejected_write_changes_nothing<G: ValueSource, CB: WriteCallback<G>>(
    pre: LocalCharBase<G, CB>,
    post: LocalCharBase<G, CB>,
    args: Seq<Arg>,
    r: Reply,
    sig: Option<SignalMsg>,
    cb: CB,
    name: Seq<char>,
    detail: Option<Seq<char>>,
)
    requires
        LocalCharBase::write_post(pre, post, args, r, sig),
        pre.flags.spec_writable(),
        !write_args_bad(args),
        write_offset(args) + write_payload(args).len() <= 512,
        write_offset(args) <= pre.vf.bytes().len(),
        pre.vf.is_value(),
        pre.write_callback == Some(cb),
        cb.outcome_spec(
            pre.vf.bytes().take(write_offset(args) as int) + write_payload(args),
        ) == (OutcomeView::Reject { name, detail }),
    ensures
        post.vf == pre.vf,
        r matches Reply::Error { name: n, detail: d } && n@ == name && (match (d, detail) {
            (Some(ds), Some(dv)) => ds@ == dv,
            (Option::None, Option::None) => true,
            _ => false,
        }),
        sig is None,
{
}

} // verus!
