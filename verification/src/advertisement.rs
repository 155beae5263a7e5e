//! The advertisement property bag: a flat, mostly declarative property
//! container, carried here as the reflection protocol's simplest
//! implementor. Its time-decayed properties are computed from a caller
//! supplied monotonic clock reading, so the record itself stays pure.

use vstd::prelude::*;
use crate::Error;
use crate::strutil::{str_eq, strs_view};
use crate::wire::Arg;

verus! {

/// The advertisement type.
#[derive(Clone, Copy, Debug, PartialEq, Eq, Structural)]
pub enum AdType {
    Peripheral,
    Broadcast,
}

/// The wire name of an advertisement type.
pub open spec fn ad_type_str_spec(t: AdType) -> Seq<char> {
    match t {
        AdType::Peripheral => "peripheral"@,
        AdType::Broadcast => "broadcast"@,
    }
}

impl AdType {
    /// The wire name of this advertisement type.
    pub fn to_str(&self) -> (r: &'static str)
        ensures
            r@ == ad_type_str_spec(*self),
    {
        match self {
            AdType::Peripheral => "peripheral",
            AdType::Broadcast => "broadcast",
        }
    }
}

/// Whether `c` is a hex digit.
pub open spec fn is_hex_char(c: char) -> bool {
    ('0' <= c && c <= '9') || ('a' <= c && c <= 'f') || ('A' <= c && c <= 'F')
}

/// A well-formed UUID string: 36 characters, dashes at positions 8, 13,
/// 18 and 23, hex digits everywhere else.
pub open spec fn valid_uuid(s: Seq<char>) -> bool {
    &&& s.len() == 36
    &&& forall|i: int|
        0 <= i < 36 ==> if i == 8 || i == 13 || i == 18 || i == 23 {
            s[i] == '-'
        } else {
            is_hex_char(#[trigger] s[i])
        }
}

/// Checks the UUID string format.
pub fn validate_uuid(s: &str) -> (r: bool)
    ensures
        r == valid_uuid(s@),
{
    let n = s.unicode_len();
    if n != 36 {
        return false;
    }
    let mut i: usize = 0;
    while i < 36
        invariant
            i <= 36,
            s@.len() == 36,
            forall|j: int|
                0 <= j < i ==> if j == 8 || j == 13 || j == 18 || j == 23 {
                    s@[j] == '-'
                } else {
                    is_hex_char(#[trigger] s@[j])
                },
        decreases 36 - i,
    {
        let c = s.get_char(i);
        if i == 8 || i == 13 || i == 18 || i == 23 {
            if c != '-' {
                return false;
            }
        } else {
            if !(('0' <= c && c <= '9') || ('a' <= c && c <= 'f') || ('A' <= c && c <= 'F')) {
                return false;
            }
        }
        i = i + 1;
    }
    true
}

/// Whether every string in `v` is a well-formed UUID.
pub open spec fn all_valid_uuids(v: Seq<String>) -> bool {
    forall|i: int| 0 <= i < v.len() ==> valid_uuid(#[trigger] v[i]@)
}

/// One advertisement property, decoded for dispatch.
pub enum AdProp {
    Kind,
    ServiceUuids,
    ManufacturerData,
    SolicitUuids,
    ServiceData,
    Includes,
    LocalName,
    Appearance,
    Duration,
    Timeout,
    Unknown,
}

/// The property an advertisement property name denotes.
#[verifier::opaque]
pub open spec fn ad_prop_spec(s: Seq<char>) -> AdProp {
    if s == "Type"@ {
        AdProp::Kind
    } else if s == "ServiceUUIDs"@ {
        AdProp::ServiceUuids
    } else if s == "ManufacturerData"@ {
        AdProp::ManufacturerData
    } else if s == "SolicitUUIDs"@ {
        AdProp::SolicitUuids
    } else if s == "ServiceData"@ {
        AdProp::ServiceData
    } else if s == "Includes"@ {
        AdProp::Includes
    } else if s == "LocalName"@ {
        AdProp::LocalName
    } else if s == "Appearance"@ {
        AdProp::Appearance
    } else if s == "Duration"@ {
        AdProp::Duration
    } else if s == "Timeout"@ {
        AdProp::Timeout
    } else {
        AdProp::Unknown
    }
}

/// Decodes one advertisement property name.
#[verifier::rlimit(60)]
pub fn ad_prop_from_str(s: &str) -> (r: AdProp)
    ensures
        r == ad_prop_spec(s@),
{
    proof {
        reveal(ad_prop_spec);
    }
    if str_eq(s, "Type") {
        AdProp::Kind
    } else if str_eq(s, "ServiceUUIDs") {
        AdProp::ServiceUuids
    } else if str_eq(s, "ManufacturerData") {
        AdProp::ManufacturerData
    } else if str_eq(s, "SolicitUUIDs") {
        AdProp::SolicitUuids
    } else if str_eq(s, "ServiceData") {
        AdProp::ServiceData
    } else if str_eq(s, "Includes") {
        AdProp::Includes
    } else if str_eq(s, "LocalName") {
        AdProp::LocalName
    } else if str_eq(s, "Appearance") {
        AdProp::Appearance
    } else if str_eq(s, "Duration") {
        AdProp::Duration
    } else if str_eq(s, "Timeout") {
        AdProp::Timeout
    } else {
        AdProp::Unknown
    }
}

/// The seconds left of `total` when `elapsed` seconds have passed since
/// the baseline, saturating at zero.
pub open spec fn remaining_spec(total: u16, start: u64, now: u64) -> u16 {
    let elapsed = if now >= start {
        now - start
    } else {
        0
    };
    if elapsed >= total {
        0u16
    } else {
        (total - elapsed) as u16
    }
}

fn remaining(total: u16, start: u64, now: u64) -> (r: u16)
    ensures
        r == remaining_spec(total, start, now),
{
    let elapsed: u64 = if now >= start {
        now - start
    } else {
        0
    };
    if elapsed >= total as u64 {
        0
    } else {
        total - (elapsed as u16)
    }
}

/// The views of a sequence of `u16`-keyed byte-array pairs.
pub open spec fn u16_pairs_view(v: Seq<(u16, Vec<u8>)>) -> Seq<(u16, Seq<u8>)> {
    v.map_values(|p: (u16, Vec<u8>)| (p.0, p.1@))
}

/// The views of a sequence of string-keyed byte-array pairs.
pub open spec fn str_pairs_view(v: Seq<(String, Vec<u8>)>) -> Seq<(Seq<char>, Seq<u8>)> {
    v.map_values(|p: (String, Vec<u8>)| (p.0@, p.1@))
}

/// An advertisement to publish: its declared contents plus the
/// baselines, in a caller-chosen monotonic clock, from which the
/// remaining timeout and duration decay.
pub struct Advertisement {
    pub typ: AdType,
    pub service_uuids: Vec<String>,
    pub manu_data: Vec<(u16, Vec<u8>)>,
    pub serv_dict: Vec<(String, Vec<u8>)>,
    pub solicit_uuids: Vec<String>,
    pub includes: Vec<String>,
    pub timeout: u16,
    pub duration: u16,
    pub index: u16,
    pub path: Vec<u8>,
    pub appearance: u16,
    pub localname: String,
    pub timeout_start: u64,
    pub duration_start: u64,
}

impl Advertisement {
    /// A fresh advertisement of the given type and local name, with the
    /// default three-minute timeout and duration and zero clock
    /// baselines.
    pub fn new(typ: AdType, localname: String) -> (r: Advertisement)
        ensures
            r.typ == typ,
            r.localname == localname,
            r.service_uuids@.len() == 0,
            r.solicit_uuids@.len() == 0,
            r.includes@.len() == 0,
            r.manu_data@.len() == 0,
            r.serv_dict@.len() == 0,
            r.timeout == 180,
            r.duration == 180,
            r.appearance == 0,
            r.index == 0,
            r.path@ == Seq::<u8>::empty(),
            r.timeout_start == 0,
            r.duration_start == 0,
    {
        Advertisement {
            typ,
            service_uuids: Vec::new(),
            solicit_uuids: Vec::new(),
            includes: Vec::new(),
            timeout: 180,
            timeout_start: 0,
            duration: 180,
            duration_start: 0,
            appearance: 0,
            localname,
            index: 0,
            path: Vec::new(),
            manu_data: Vec::new(),
            serv_dict: Vec::new(),
        }
    }

    /// Checks that every advertised and solicited UUID is well formed;
    /// the first offending string of the two lists, in order, comes
    /// back in the error payload together with the list it came from.
    pub fn validate(&self) -> (r: Result<(), Error>)
        ensures
            (r is Ok) == (all_valid_uuids(self.service_uuids@) && all_valid_uuids(
                self.solicit_uuids@,
            )),
            !all_valid_uuids(self.service_uuids@) ==> (r matches Err(Error::BadInput(m)) && exists|
                i: int,
            |
                {
                    &&& 0 <= i < self.service_uuids@.len()
                    &&& !valid_uuid(#[trigger] self.service_uuids@[i]@)
                    &&& (forall|j: int| 0 <= j < i ==> valid_uuid(#[trigger] self.service_uuids@[j]@))
                    &&& m@ == self.service_uuids@[i]@ + " is an invalid uuid in service_uuids"@
                }),
            all_valid_uuids(self.service_uuids@) && !all_valid_uuids(self.solicit_uuids@) ==> (
            r matches Err(Error::BadInput(m)) && exists|i: int|
                {
                    &&& 0 <= i < self.solicit_uuids@.len()
                    &&& !valid_uuid(#[trigger] self.solicit_uuids@[i]@)
                    &&& (forall|j: int| 0 <= j < i ==> valid_uuid(#[trigger] self.solicit_uuids@[j]@))
                    &&& m@ == self.solicit_uuids@[i]@ + " is an invalid uuid in solicit_uuids"@
                }),
    {
        let n = self.service_uuids.len();
        let mut i: usize = 0;
        while i < n
            invariant
                i <= n,
                n == self.service_uuids@.len(),
                forall|j: int| 0 <= j < i ==> valid_uuid(#[trigger] self.service_uuids@[j]@),
            decreases n - i,
        {
            if !validate_uuid(self.service_uuids[i].as_str()) {
                let mut m = self.service_uuids[i].clone();
                m.append(" is an invalid uuid in service_uuids");
                return Err(Error::BadInput(m));
            }
            i = i + 1;
        }
        let m = self.solicit_uuids.len();
        let mut j: usize = 0;
        while j < m
            invariant
                j <= m,
                m == self.solicit_uuids@.len(),
                all_valid_uuids(self.service_uuids@),
                forall|k: int| 0 <= k < j ==> valid_uuid(#[trigger] self.solicit_uuids@[k]@),
            decreases m - j,
        {
            if !validate_uuid(self.solicit_uuids[j].as_str()) {
                let mut msg = self.solicit_uuids[j].clone();
                msg.append(" is an invalid uuid in solicit_uuids");
                return Err(Error::BadInput(msg));
            }
            j = j + 1;
        }
        Ok(())
    }

    /// Produces one advertisement property as a wire variant, or `None`
    /// for an unknown interface or property. `now_secs` is the caller's
    /// monotonic clock, from which the remaining timeout and duration
    /// are recomputed.
    pub fn get_inner(&self, interface: &str, prop: &str, now_secs: u64) -> (r: Option<Arg>)
        ensures
            interface@ != "org.bluez.LEAdvertisement1"@ ==> r is None,
            interface@ == "org.bluez.LEAdvertisement1"@ ==> match ad_prop_spec(prop@) {
                AdProp::Kind => r matches Some(Arg::Str(s)) && s@ == ad_type_str_spec(self.typ),
                AdProp::ServiceUuids => r matches Some(Arg::StrArr(v)) && strs_view(v@)
                    == strs_view(self.service_uuids@),
                AdProp::ManufacturerData => r matches Some(Arg::U16ByteDict(d)) && u16_pairs_view(
                    d@,
                ) == u16_pairs_view(self.manu_data@),
                AdProp::SolicitUuids => r matches Some(Arg::StrArr(v)) && strs_view(v@)
                    == strs_view(self.solicit_uuids@),
                AdProp::ServiceData => r matches Some(Arg::StrByteDict(d)) && str_pairs_view(d@)
                    == str_pairs_view(self.serv_dict@),
                AdProp::Includes => r matches Some(Arg::StrArr(v)) && strs_view(v@) == strs_view(
                    self.includes@,
                ),
                AdProp::LocalName => r matches Some(Arg::Str(s)) && s@ == self.localname@,
                AdProp::Appearance => r == Some(Arg::U16(self.appearance)),
                AdProp::Duration => r == Some(
                    Arg::U16(remaining_spec(self.duration, self.duration_start, now_secs)),
                ),
                AdProp::Timeout => r == Some(
                    Arg::U16(remaining_spec(self.timeout, self.timeout_start, now_secs)),
                ),
                AdProp::Unknown => r is None,
            },
    {
        if !str_eq(interface, "org.bluez.LEAdvertisement1") {
            return None;
        }
        match ad_prop_from_str(prop) {
            AdProp::Kind => Some(Arg::Str(String::from_str(self.typ.to_str()))),
            AdProp::ServiceUuids => Some(Arg::StrArr(clone_strings(&self.service_uuids))),
            AdProp::ManufacturerData => Some(Arg::U16ByteDict(clone_u16_pairs(&self.manu_data))),
            AdProp::SolicitUuids => Some(Arg::StrArr(clone_strings(&self.solicit_uuids))),
            AdProp::ServiceData => Some(Arg::StrByteDict(clone_str_pairs(&self.serv_dict))),
            AdProp::Includes => Some(Arg::StrArr(clone_strings(&self.includes))),
            AdProp::LocalName => Some(Arg::Str(self.localname.clone())),
            AdProp::Appearance => Some(Arg::U16(self.appearance)),
            AdProp::Duration => Some(
                Arg::U16(remaining(self.duration, self.duration_start, now_secs)),
            ),
            AdProp::Timeout => Some(Arg::U16(remaining(self.timeout, self.timeout_start, now_secs))),
            AdProp::Unknown => None,
        }
    }
}

/// Copies a string array, keeping the contents.
fn clone_strings(v: &Vec<String>) -> (r: Vec<String>)
    ensures
        strs_view(r@) == strs_view(v@),
{
    let mut r: Vec<String> = Vec::new();
    let n = v.len();
    let mut i: usize = 0;
    while i < n
        invariant
            i <= n,
            n == v@.len(),
            strs_view(r@) == strs_view(v@.take(i as int)),
        decreases n - i,
    {
        let s = v[i].clone();
        proof {
            assert(strs_view(r@.push(s)) =~= strs_view(r@).push(s@));
            assert(strs_view(v@.take(i as int + 1)) =~= strs_view(v@.take(i as int)).push(
                v@[i as int]@,
            ));
        }
        r.push(s);
        i = i + 1;
    }
    proof {
        assert(v@.take(n as int) =~= v@);
    }
    r
}

/// Copies a dictionary of `u16` keys to byte arrays, keeping the
/// contents.
fn clone_u16_pairs(v: &Vec<(u16, Vec<u8>)>) -> (r: Vec<(u16, Vec<u8>)>)
    ensures
        u16_pairs_view(r@) == u16_pairs_view(v@),
{
    let mut r: Vec<(u16, Vec<u8>)> = Vec::new();
    let n = v.len();
    let mut i: usize = 0;
    while i < n
        invariant
            i <= n,
            n == v@.len(),
            u16_pairs_view(r@) == u16_pairs_view(v@.take(i as int)),
        decreases n - i,
    {
        let mut bytes: Vec<u8> = Vec::new();
        bytes.extend_from_slice(v[i].1.as_slice());
        let key = v[i].0;
        proof {
            assert(u16_pairs_view(r@.push((key, bytes))) =~= u16_pairs_view(r@).push(
                (key, bytes@),
            ));
            assert(u16_pairs_view(v@.take(i as int + 1)) =~= u16_pairs_view(
                v@.take(i as int),
            ).push((v@[i as int].0, v@[i as int].1@)));
            assert(bytes@ =~= v@[i as int].1@);
        }
        r.push((key, bytes));
        i = i + 1;
    }
    proof {
        assert(v@.take(n as int) =~= v@);
    }
    r
}

/// Copies a dictionary of string keys to byte arrays, keeping the
/// contents.
fn clone_str_pairs(v: &Vec<(String, Vec<u8>)>) -> (r: Vec<(String, Vec<u8>)>)
    ensures
        str_pairs_view(r@) == str_pairs_view(v@),
{
    let mut r: Vec<(String, Vec<u8>)> = Vec::new();
    let n = v.len();
    let mut i: usize = 0;
    while i < n
        invariant
            i <= n,
            n == v@.len(),
            str_pairs_view(r@) == str_pairs_view(v@.take(i as int)),
        decreases n - i,
    {
        let mut bytes: Vec<u8> = Vec::new();
        bytes.extend_from_slice(v[i].1.as_slice());
        let key = v[i].0.clone();
        proof {
            assert(str_pairs_view(r@.push((key, bytes))) =~= str_pairs_view(r@).push(
                (key@, bytes@),
            ));
            assert(str_pairs_view(v@.take(i as int + 1)) =~= str_pairs_view(
                v@.take(i as int),
            ).push((v@[i as int].0@, v@[i as int].1@)));
            assert(bytes@ =~= v@[i as int].1@);
        }
        r.push((key, bytes));
        i = i + 1;
    }
    proof {
        assert(v@.take(n as int) =~= v@);
    }
    r
}

} // verus!
