//! Remote device records: populated from discovery property snapshots,
//! kept current from change notifications, and the handle surface the
//! application uses.

use vstd::prelude::*;
use crate::Error;
use crate::path::{bytes_eq, char_prefix_spec, desc_prefix_spec, head_segment_spec, last_segment,
    last_segment_spec, serv_prefix_spec, split_first_segment, starts_with, starts_with_spec,
    tail_after_segment_spec};
use crate::remote::{RemoteCharBase, RemoteDescBase, RemoteServiceBase};
use crate::strmap::StrMap;
use crate::wire::{DictValue, PropDict};

verus! {

/// The address type of a remote device.
pub enum AddrType {
    Public,
    Random,
}

/// A remote device mirrored from discovery: its address, bus path,
/// services, and the connection flags that change notifications keep
/// current.
pub struct RemoteDevice {
    /// The device address, unique within the process.
    pub mac: String,
    pub path: Vec<u8>,
    pub services: StrMap<RemoteServiceBase>,
    /// Shared device state, mutated only by the reactor that services
    /// change notifications.
    pub connected: bool,
    pub paired: bool,
}

/// Whether every `Connected` / `Paired` entry of a change set carries a
/// boolean, as the wire requires.
pub open spec fn changed_well_typed(changed: PropDict) -> bool {
    &&& (changed.spec_get("Connected"@) matches Some(v) ==> v is Bool)
    &&& (changed.spec_get("Paired"@) matches Some(v) ==> v is Bool)
}


/// Resolution of an object path against the remote tree, as the
/// original bus routing returns it: `None` when nothing under this
/// device matches; `Some(None)` for the device itself; and the
/// service / characteristic / descriptor UUIDs for a deeper match.
pub open spec fn match_result_view(r: Option<Option<(String, Option<(String, Option<String>)>)>>)
    -> Option<Option<(Seq<char>, Option<(Seq<char>, Option<Seq<char>>)>)>> {
    match r {
        Option::None => None,
        Option::Some(inner) => Some(
            match inner {
                Option::None => None,
                Option::Some((s, more)) => Some(
                    (
                        s@,
                        match more {
                            Option::None => None,
                            Option::Some((c, md)) => Some(
                                (
                                    c@,
                                    match md {
                                        Option::None => None,
                                        Option::Some(d) => Some(d@),
                                    },
                                ),
                            ),
                        },
                    ),
                ),
            },
        ),
    }
}

/// The first descriptor whose path's final segment is the remaining
/// path, which must carry the `desc` check prefix and be a leaf.
pub open spec fn find_desc_spec(entries: Seq<(String, RemoteDescBase)>, rest: Seq<u8>) -> Option<
    Seq<char>,
>
    decreases entries.len(),
{
    if !starts_with_spec(rest, desc_prefix_spec()) {
        None
    } else if entries.len() == 0 {
        None
    } else if last_segment_spec(entries.first().1.path@) == head_segment_spec(rest)
        && tail_after_segment_spec(rest) is None {
        Some(entries.first().0@)
    } else {
        find_desc_spec(entries.drop_first(), rest)
    }
}

/// The first characteristic whose path's final segment matches the
/// head of the remaining path (which must carry the `char` check
/// prefix), descending into its descriptors when more path remains.
pub open spec fn find_char_spec(entries: Seq<(String, RemoteCharBase)>, rest: Seq<u8>) -> Option<
    (Seq<char>, Option<Seq<char>>),
>
    decreases entries.len(),
{
    if !starts_with_spec(rest, char_prefix_spec()) {
        None
    } else if entries.len() == 0 {
        None
    } else {
        let hd = entries.first();
        let attempt: Option<(Seq<char>, Option<Seq<char>>)> = if last_segment_spec(hd.1.path@)
            == head_segment_spec(rest) {
            match tail_after_segment_spec(rest) {
                Option::None => Some((hd.0@, None)),
                Option::Some(r3) => match find_desc_spec(hd.1.descs.entry_seq(), r3) {
                    Option::Some(du) => Some((hd.0@, Some(du))),
                    Option::None => None,
                },
            }
        } else {
            None
        };
        if attempt is Some {
            attempt
        } else {
            find_char_spec(entries.drop_first(), rest)
        }
    }
}

/// The first service whose path's final segment matches the head of
/// the remaining path, descending into its characteristics when more
/// path remains.
pub open spec fn find_serv_spec(entries: Seq<(String, RemoteServiceBase)>, rest: Seq<u8>)
    -> Option<(Seq<char>, Option<(Seq<char>, Option<Seq<char>>)>)>
    decreases entries.len(),
{
    if entries.len() == 0 {
        None
    } else {
        let hd = entries.first();
        let attempt: Option<(Seq<char>, Option<(Seq<char>, Option<Seq<char>>)>)> = if
            last_segment_spec(hd.1.path@) == head_segment_spec(rest) {
            match tail_after_segment_spec(rest) {
                Option::None => Some((hd.0@, None)),
                Option::Some(r2) => match find_char_spec(hd.1.chars.entry_seq(), r2) {
                    Option::Some(cm) => Some((hd.0@, Some(cm))),
                    Option::None => None,
                },
            }
        } else {
            None
        };
        if attempt is Some {
            attempt
        } else {
            find_serv_spec(entries.drop_first(), rest)
        }
    }
}

/// Path routing, spec-side: the incoming path must begin with the
/// device's own final segment; nothing further names the device; a
/// remainder must carry the `serv` check prefix and resolve through
/// the service, characteristic and descriptor maps by segment.
pub open spec fn match_dev_spec(dev: RemoteDevice, path: Seq<u8>) -> Option<
    Option<(Seq<char>, Option<(Seq<char>, Option<Seq<char>>)>)>,
> {
    if head_segment_spec(path) != last_segment_spec(dev.path@) {
        None
    } else {
        match tail_after_segment_spec(path) {
            Option::None => Some(None),
            Option::Some(rest) => if !starts_with_spec(rest, serv_prefix_spec()) {
                None
            } else {
                match find_serv_spec(dev.services.entry_seq(), rest) {
                    Option::Some(m) => Some(Some(m)),
                    Option::None => None,
                }
            },
        }
    }
}

/// Resolves the remaining path under one characteristic's descriptors.
fn match_descs(ch: &RemoteCharBase, rest: &[u8]) -> (r: Option<String>)
    ensures
        match r {
            Some(d) => find_desc_spec(ch.descs.entry_seq(), rest@) == Some(d@),
            None => find_desc_spec(ch.descs.entry_seq(), rest@) is None,
        },
{
    let dp = crate::path::desc_prefix();
    if !starts_with(rest, &dp) {
        return None;
    }
    let (hseg, tail) = split_first_segment(rest);
    if tail.is_some() {
        proof {
            lemma_desc_no_leaf(ch.descs.entry_seq(), rest@);
        }
        return None;
    }
    let n = ch.descs.len();
    let mut i: usize = 0;
    proof {
        assert(ch.descs.entry_seq().skip(0) =~= ch.descs.entry_seq());
    }
    while i < n
        invariant
            i <= n,
            n == ch.descs.entry_seq().len(),
            hseg@ == head_segment_spec(rest@),
            tail_after_segment_spec(rest@) is None,
            starts_with_spec(rest@, desc_prefix_spec()),
            find_desc_spec(ch.descs.entry_seq().skip(i as int), rest@) == find_desc_spec(
                ch.descs.entry_seq(),
                rest@,
            ),
        decreases n - i,
    {
        proof {
            assert(ch.descs.entry_seq().skip(i as int).first() == ch.descs.entry_seq()[i as int]);
            assert(ch.descs.entry_seq().skip(i as int).drop_first() =~= ch.descs.entry_seq().skip(
                i as int + 1,
            ));
        }
        let d = ch.descs.value_at(i);
        let dseg = last_segment(d.path.as_slice());
        if bytes_eq(dseg.as_slice(), hseg.as_slice()) {
            proof {
                assert(find_desc_spec(ch.descs.entry_seq().skip(i as int), rest@) == Some(
                    ch.descs.entry_seq()[i as int].0@,
                ));
                assert(ch.descs.key_seq()[i as int] == ch.descs.entry_seq()[i as int].0@);
            }
            return Some(ch.descs.key_at(i).clone());
        }
        i = i + 1;
    }
    proof {
        assert(ch.descs.entry_seq().skip(n as int) =~= Seq::<(String, RemoteDescBase)>::empty());
    }
    None
}

/// With more path below a descriptor segment, no descriptor matches.
proof fn lemma_desc_no_leaf(entries: Seq<(String, RemoteDescBase)>, rest: Seq<u8>)
    requires
        tail_after_segment_spec(rest) is Some,
    ensures
        find_desc_spec(entries, rest) is None,
    decreases entries.len(),
{
    if entries.len() > 0 {
        lemma_desc_no_leaf(entries.drop_first(), rest);
    }
}

/// Resolves the remaining path under one service's characteristics.
fn match_chars(svc: &RemoteServiceBase, rest: &[u8]) -> (r: Option<(String, Option<String>)>)
    ensures
        match r {
            Some((c, Some(d))) => find_char_spec(svc.chars.entry_seq(), rest@) == Some(
                (c@, Some(d@)),
            ),
            Some((c, None)) => find_char_spec(svc.chars.entry_seq(), rest@) == Some(
                (c@, Option::<Seq<char>>::None),
            ),
            None => find_char_spec(svc.chars.entry_seq(), rest@) is None,
        },
{
    let cp = crate::path::char_prefix();
    if !starts_with(rest, &cp) {
        return None;
    }
    let (hseg, tail) = split_first_segment(rest);
    let n = svc.chars.len();
    let mut i: usize = 0;
    proof {
        assert(svc.chars.entry_seq().skip(0) =~= svc.chars.entry_seq());
    }
    while i < n
        invariant
            i <= n,
            n == svc.chars.entry_seq().len(),
            hseg@ == head_segment_spec(rest@),
            (match tail {
                Some(t) => tail_after_segment_spec(rest@) == Some(t@),
                None => tail_after_segment_spec(rest@) is None,
            }),
            starts_with_spec(rest@, char_prefix_spec()),
            find_char_spec(svc.chars.entry_seq().skip(i as int), rest@) == find_char_spec(
                svc.chars.entry_seq(),
                rest@,
            ),
        decreases n - i,
    {
        proof {
            assert(svc.chars.entry_seq().skip(i as int).first() == svc.chars.entry_seq()[i as int]);
            assert(svc.chars.entry_seq().skip(i as int).drop_first() =~= svc.chars.entry_seq().skip(
                i as int + 1,
            ));
        }
        let ch = svc.chars.value_at(i);
        let cseg = last_segment(ch.path.as_slice());
        if bytes_eq(cseg.as_slice(), hseg.as_slice()) {
            match &tail {
                None => {
                    proof {
                        assert(find_char_spec(svc.chars.entry_seq().skip(i as int), rest@) == Some(
                            (svc.chars.entry_seq()[i as int].0@, Option::<Seq<char>>::None),
                        ));
                        assert(svc.chars.key_seq()[i as int] == svc.chars.entry_seq()[i as int].0@);
                    }
                    return Some((svc.chars.key_at(i).clone(), None));
                },
                Some(r3) => {
                    match match_descs(ch, r3.as_slice()) {
                        Some(du) => {
                            proof {
                                assert(find_char_spec(
                                    svc.chars.entry_seq().skip(i as int),
                                    rest@,
                                ) == Some((svc.chars.entry_seq()[i as int].0@, Some(du@))));
                                assert(svc.chars.key_seq()[i as int]
                                    == svc.chars.entry_seq()[i as int].0@);
                            }
                            return Some((svc.chars.key_at(i).clone(), Some(du)));
                        },
                        None => (),
                    }
                },
            }
        }
        i = i + 1;
    }
    proof {
        assert(svc.chars.entry_seq().skip(n as int) =~= Seq::<(String, RemoteCharBase)>::empty());
    }
    None
}

impl RemoteDevice {
    pub open spec fn spec_connected(self) -> bool {
        self.connected
    }

    pub open spec fn spec_paired(self) -> bool {
        self.paired
    }

    /// Builds a record from a discovery property snapshot: `Address`
    /// (string), `Connected` and `Paired` (booleans) must be present;
    /// unknown properties are ignored.
    pub fn from_props(props: &PropDict, path: Vec<u8>) -> (r: Result<RemoteDevice, Error>)
        ensures
            match props.spec_get("Address"@) {
                Some(DictValue::Str(a)) => match props.spec_get("Connected"@) {
                    Some(DictValue::Bool(c)) => match props.spec_get("Paired"@) {
                        Some(DictValue::Bool(p)) => r matches Ok(d) && d.mac@ == a@ && d.path
                            == path && d.spec_connected() == c && d.spec_paired() == p
                            && d.services.entry_seq()
                            == Seq::<(String, RemoteServiceBase)>::empty(),
                        Some(_) => r matches Err(Error::DbusReqErr(m)) && m@
                            == "Invalid device returned; Paired field is invalid type"@,
                        None => r matches Err(Error::DbusReqErr(m)) && m@
                            == "Invalid device returned; missing Paired field"@,
                    },
                    Some(_) => r matches Err(Error::DbusReqErr(m)) && m@
                        == "Invalid device returned; Connected field is invalid type"@,
                    None => r matches Err(Error::DbusReqErr(m)) && m@
                        == "Invalid device returned; missing Connected field"@,
                },
                Some(_) => r matches Err(Error::DbusReqErr(m)) && m@
                    == "Invalid device returned; Address field is invalid type"@,
                None => r matches Err(Error::DbusReqErr(m)) && m@
                    == "Invalid device returned; missing Address field"@,
            },
    {
        let mac = match props.get("Address") {
            Some(DictValue::Str(a)) => a.clone(),
            Some(_) => {
                return Err(
                    Error::DbusReqErr(
                        String::from_str("Invalid device returned; Address field is invalid type"),
                    ),
                );
            },
            None => {
                return Err(
                    Error::DbusReqErr(
                        String::from_str("Invalid device returned; missing Address field"),
                    ),
                );
            },
        };
        let connected = match props.get("Connected") {
            Some(DictValue::Bool(c)) => *c,
            Some(_) => {
                return Err(
                    Error::DbusReqErr(
                        String::from_str(
                            "Invalid device returned; Connected field is invalid type",
                        ),
                    ),
                );
            },
            None => {
                return Err(
                    Error::DbusReqErr(
                        String::from_str("Invalid device returned; missing Connected field"),
                    ),
                );
            },
        };
        let paired = match props.get("Paired") {
            Some(DictValue::Bool(p)) => *p,
            Some(_) => {
                return Err(
                    Error::DbusReqErr(
                        String::from_str("Invalid device returned; Paired field is invalid type"),
                    ),
                );
            },
            None => {
                return Err(
                    Error::DbusReqErr(
                        String::from_str("Invalid device returned; missing Paired field"),
                    ),
                );
            },
        };
        Ok(RemoteDevice { mac, path, services: StrMap::new(), connected, paired })
    }

    /// Applies a change notification: `Connected` and `Paired` entries
    /// update the flags, unknown properties are ignored, and a
    /// wrong-typed entry fails the whole update without applying any
    /// part of it.
    pub fn update_from_changed(&mut self, changed: &PropDict) -> (r: Result<(), Error>)
        ensures
            final(self).mac == old(self).mac,
            final(self).path == old(self).path,
            final(self).services == old(self).services,
            if changed_well_typed(*changed) {
                &&& r is Ok
                &&& final(self).spec_connected() == (match changed.spec_get("Connected"@) {
                    Some(DictValue::Bool(c)) => c,
                    _ => old(self).spec_connected(),
                })
                &&& final(self).spec_paired() == (match changed.spec_get("Paired"@) {
                    Some(DictValue::Bool(p)) => p,
                    _ => old(self).spec_paired(),
                })
            } else {
                r matches Err(Error::DbusReqErr(m)) && m@ == "Changed property had invalid type"@
                    && *final(self) == *old(self)
            },
    {
        let mut connected = self.connected;
        match self.lookup_bool(changed, "Connected") {
            Ok(Some(c)) => {
                connected = c;
            },
            Ok(None) => (),
            Err(e) => {
                return Err(e);
            },
        }
        let mut paired = self.paired;
        match self.lookup_bool(changed, "Paired") {
            Ok(Some(p)) => {
                paired = p;
            },
            Ok(None) => (),
            Err(e) => {
                return Err(e);
            },
        }
        self.connected = connected;
        self.paired = paired;
        Ok(())
    }

    /// Looks a boolean property up, failing on a wrong-typed entry.
    fn lookup_bool(&self, changed: &PropDict, key: &str) -> (r: Result<Option<bool>, Error>)
        ensures
            match changed.spec_get(key@) {
                Some(DictValue::Bool(b)) => r == Result::<Option<bool>, Error>::Ok(Some(b)),
                Some(_) => r matches Err(Error::DbusReqErr(m)) && m@
                    == "Changed property had invalid type"@,
                None => r == Result::<Option<bool>, Error>::Ok(None),
            },
    {
        match changed.get(key) {
            Some(DictValue::Bool(b)) => Ok(Some(*b)),
            Some(_) => Err(
                Error::DbusReqErr(String::from_str("Changed property had invalid type")),
            ),
            None => Ok(None),
        }
    }

    /// Whether the device is connected, per the latest snapshot or
    /// change notification.
    pub fn connected(&self) -> (r: bool)
        ensures
            r == self.spec_connected(),
    {
        self.connected
    }

    /// Whether the device is paired.
    pub fn paired(&self) -> (r: bool)
        ensures
            r == self.spec_paired(),
    {
        self.paired
    }

    /// Initiating a connection is the transport's work; this core does
    /// not offer it.
    pub fn connect(&mut self) -> (r: Result<(), Error>)
        ensures
            r matches Err(Error::Unsupported),
            *final(self) == *old(self),
    {
        Err(Error::Unsupported)
    }

    /// Initiating a pairing is the transport's work; this core does
    /// not offer it.
    pub fn pair(&mut self) -> (r: Result<(), Error>)
        ensures
            r matches Err(Error::Unsupported),
            *final(self) == *old(self),
    {
        Err(Error::Unsupported)
    }

    /// Drops the cached record of a service, reporting whether one was
    /// there.
    pub fn forget_service(&mut self, uuid: &str) -> (r: bool)
        requires
            old(self).services.wf(),
        ensures
            r == old(self).services.spec_contains(uuid@),
            !final(self).services.spec_contains(uuid@),
            forall|k2: Seq<char>|
                k2 != uuid@ ==> #[trigger] final(self).services.spec_get(k2) == old(
                    self,
                ).services.spec_get(k2),
            final(self).services.wf(),
            final(self).mac == old(self).mac,
            final(self).path == old(self).path,
            final(self).spec_connected() == old(self).spec_connected(),
            final(self).spec_paired() == old(self).spec_paired(),
    {
        self.services.remove(uuid).is_some()
    }

    /// The UUIDs of the cached services.
    pub fn services(&self) -> (r: Vec<String>)
        ensures
            crate::strutil::strs_view(r@) == self.services.key_seq(),
    {
        self.services.keys()
    }

    /// Whether a service with this UUID is cached.
    pub fn has_service(&self, uuid: &str) -> (r: bool)
        ensures
            r == self.services.spec_contains(uuid@),
    {
        self.services.contains_key(uuid)
    }


    /// Routes an incoming object path, relative to this device's
    /// parent, to the record it addresses: `Some(None)` is the device
    /// itself, deeper matches carry the service, characteristic and
    /// descriptor UUIDs, and `None` means nothing here matches.
    pub fn match_dev(&self, path: &[u8]) -> (r: Option<
        Option<(String, Option<(String, Option<String>)>)>,
    >)
        ensures
            match_result_view(r) == match_dev_spec(*self, path@),
    {
        let own = last_segment(self.path.as_slice());
        let (seg0, rest0) = split_first_segment(path);
        if !bytes_eq(seg0.as_slice(), own.as_slice()) {
            return None;
        }
        let rest = match rest0 {
            Some(rest) => rest,
            None => {
                return Some(None);
            },
        };
        let sp = crate::path::serv_prefix();
        if !starts_with(rest.as_slice(), &sp) {
            return None;
        }
        let (hseg, tail) = split_first_segment(rest.as_slice());
        let n = self.services.len();
        let mut i: usize = 0;
        proof {
            assert(self.services.entry_seq().skip(0) =~= self.services.entry_seq());
        }
        while i < n
            invariant
                i <= n,
                n == self.services.entry_seq().len(),
                head_segment_spec(path@) == last_segment_spec(self.path@),
                tail_after_segment_spec(path@) == Some(rest@),
                starts_with_spec(rest@, serv_prefix_spec()),
                hseg@ == head_segment_spec(rest@),
                (match tail {
                    Some(t) => tail_after_segment_spec(rest@) == Some(t@),
                    None => tail_after_segment_spec(rest@) is None,
                }),
                find_serv_spec(self.services.entry_seq().skip(i as int), rest@) == find_serv_spec(
                    self.services.entry_seq(),
                    rest@,
                ),
            decreases n - i,
        {
            proof {
                assert(self.services.entry_seq().skip(i as int).first()
                    == self.services.entry_seq()[i as int]);
                assert(self.services.entry_seq().skip(i as int).drop_first()
                    =~= self.services.entry_seq().skip(i as int + 1));
            }
            let svc = self.services.value_at(i);
            let sseg = last_segment(svc.path.as_slice());
            if bytes_eq(sseg.as_slice(), hseg.as_slice()) {
                match &tail {
                    None => {
                        proof {
                            assert(find_serv_spec(
                                self.services.entry_seq().skip(i as int),
                                rest@,
                            ) == Some(
                                (
                                    self.services.entry_seq()[i as int].0@,
                                    Option::<(Seq<char>, Option<Seq<char>>)>::None,
                                ),
                            ));
                            assert(self.services.key_seq()[i as int]
                                == self.services.entry_seq()[i as int].0@);
                        }
                        return Some(Some((self.services.key_at(i).clone(), None)));
                    },
                    Some(r2) => {
                        match match_chars(svc, r2.as_slice()) {
                            Some(cm) => {
                                proof {
                                    assert(self.services.key_seq()[i as int]
                                        == self.services.entry_seq()[i as int].0@);
                                    assert(find_serv_spec(
                                        self.services.entry_seq().skip(i as int),
                                        rest@,
                                    ) is Some);
                                }
                                return Some(Some((self.services.key_at(i).clone(), Some(cm))));
                            },
                            None => (),
                        }
                    },
                }
            }
            i = i + 1;
        }
        proof {
            assert(self.services.entry_seq().skip(n as int)
                =~= Seq::<(String, RemoteServiceBase)>::empty());
        }
        None
    }

    /// The device address.
    pub fn address(&self) -> (r: &String)
        ensures
            r == &self.mac,
    {
        &self.mac
    }
}

} // verus!
