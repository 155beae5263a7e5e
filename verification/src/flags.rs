//! The GATT characteristic property bitset and its wire string-array form.

use vstd::prelude::*;
use crate::strutil::{str_eq, strs_view};

verus! {

/// The independent GATT characteristic properties. The set of `true` flags
/// gates which bus operations a characteristic permits: reading needs a
/// read-capable flag, writing a write-capable one, and notification
/// enablement needs `notify` or `indicate`.
#[derive(Clone, Copy, Debug, PartialEq, Eq, Structural)]
pub struct CharFlags {
    pub broadcast: bool,
    pub read: bool,
    pub write_wo_response: bool,
    pub write: bool,
    pub notify: bool,
    pub indicate: bool,
    pub auth_signed_writes: bool,
    pub extended_properties: bool,
    pub reliable_write: bool,
    pub writable_auxiliaries: bool,
    pub encrypt_read: bool,
    pub encrypt_write: bool,
    pub encrypt_auth_read: bool,
    pub encrypt_auth_write: bool,
    pub secure_read: bool,
    pub secure_write: bool,
    pub authorize: bool,
}

/// One GATT characteristic property, the decoded form of its wire name.
#[derive(Clone, Copy, Debug, PartialEq, Eq, Structural)]
pub enum FlagName {
    Broadcast,
    Read,
    Write,
    WriteWoResponse,
    Notify,
    Indicate,
    AuthSignedWrites,
    ExtendedProperties,
    ReliableWrite,
    WritableAuxiliaries,
    EncryptRead,
    EncryptWrite,
    EncryptAuthRead,
    EncryptAuthWrite,
    SecureWrite,
    SecureRead,
    Authorize,
}

/// The property a wire name denotes, or `None` for an unknown name.
#[verifier::opaque]
pub open spec fn flag_name_spec(s: Seq<char>) -> Option<FlagName> {
    if s == "broadcast"@ {
        Some(FlagName::Broadcast)
    } else if s == "read"@ {
        Some(FlagName::Read)
    } else if s == "write"@ {
        Some(FlagName::Write)
    } else if s == "write-without-response"@ {
        Some(FlagName::WriteWoResponse)
    } else if s == "notify"@ {
        Some(FlagName::Notify)
    } else if s == "indicate"@ {
        Some(FlagName::Indicate)
    } else if s == "authenticated-signed-writes"@ {
        Some(FlagName::AuthSignedWrites)
    } else if s == "extended-properties"@ {
        Some(FlagName::ExtendedProperties)
    } else if s == "reliable-write"@ {
        Some(FlagName::ReliableWrite)
    } else if s == "writable-auxiliaries"@ {
        Some(FlagName::WritableAuxiliaries)
    } else if s == "encrypt-read"@ {
        Some(FlagName::EncryptRead)
    } else if s == "encrypt-write"@ {
        Some(FlagName::EncryptWrite)
    } else if s == "encrypt-authenticated-read"@ {
        Some(FlagName::EncryptAuthRead)
    } else if s == "encrypt-authenticated-write"@ {
        Some(FlagName::EncryptAuthWrite)
    } else if s == "secure-write"@ {
        Some(FlagName::SecureWrite)
    } else if s == "secure-read"@ {
        Some(FlagName::SecureRead)
    } else if s == "authorize"@ {
        Some(FlagName::Authorize)
    } else {
        None
    }
}

/// Whether `s` is one of the seventeen wire flag names.
pub open spec fn known_flag(s: Seq<char>) -> bool {
    flag_name_spec(s) is Some
}

/// Whether some string in `ss` names the property `f`.
pub open spec fn has_flag(ss: Seq<String>, f: FlagName) -> bool
    decreases ss.len(),
{
    if ss.len() == 0 {
        false
    } else {
        flag_name_spec(ss.last()@) == Some(f) || has_flag(ss.drop_last(), f)
    }
}

/// Decodes one wire flag name.
#[verifier::rlimit(60)]
pub fn flag_from_str(s: &str) -> (r: Option<FlagName>)
    ensures
        r == flag_name_spec(s@),
{
    proof {
        reveal(flag_name_spec);
    }
    if str_eq(s, "broadcast") {
        Some(FlagName::Broadcast)
    } else if str_eq(s, "read") {
        Some(FlagName::Read)
    } else if str_eq(s, "write") {
        Some(FlagName::Write)
    } else if str_eq(s, "write-without-response") {
        Some(FlagName::WriteWoResponse)
    } else if str_eq(s, "notify") {
        Some(FlagName::Notify)
    } else if str_eq(s, "indicate") {
        Some(FlagName::Indicate)
    } else if str_eq(s, "authenticated-signed-writes") {
        Some(FlagName::AuthSignedWrites)
    } else if str_eq(s, "extended-properties") {
        Some(FlagName::ExtendedProperties)
    } else if str_eq(s, "reliable-write") {
        Some(FlagName::ReliableWrite)
    } else if str_eq(s, "writable-auxiliaries") {
        Some(FlagName::WritableAuxiliaries)
    } else if str_eq(s, "encrypt-read") {
        Some(FlagName::EncryptRead)
    } else if str_eq(s, "encrypt-write") {
        Some(FlagName::EncryptWrite)
    } else if str_eq(s, "encrypt-authenticated-read") {
        Some(FlagName::EncryptAuthRead)
    } else if str_eq(s, "encrypt-authenticated-write") {
        Some(FlagName::EncryptAuthWrite)
    } else if str_eq(s, "secure-write") {
        Some(FlagName::SecureWrite)
    } else if str_eq(s, "secure-read") {
        Some(FlagName::SecureRead)
    } else if str_eq(s, "authorize") {
        Some(FlagName::Authorize)
    } else {
        None
    }
}

impl CharFlags {
    /// A read-capable flag is set, so `ReadValue` is permitted.
    pub open spec fn spec_readable(self) -> bool {
        self.read || self.secure_read || self.encrypt_read
    }

    /// A write-capable flag is set, so `WriteValue` is permitted.
    pub open spec fn spec_writable(self) -> bool {
        ||| self.write
        ||| self.write_wo_response
        ||| self.secure_write
        ||| self.encrypt_write
        ||| self.encrypt_auth_write
    }

    /// `notify` or `indicate` is set, so notification enablement is
    /// permitted.
    pub open spec fn spec_notifiable(self) -> bool {
        self.notify || self.indicate
    }

    pub open spec fn spec_none(self) -> bool {
        !self.broadcast && !self.read && !self.write_wo_response && !self.write && !self.notify
            && !self.indicate && !self.auth_signed_writes && !self.extended_properties
            && !self.reliable_write && !self.writable_auxiliaries && !self.encrypt_read
            && !self.encrypt_write && !self.encrypt_auth_read && !self.encrypt_auth_write
            && !self.secure_read && !self.secure_write && !self.authorize
    }

    /// Whether the property `f` is set in this bitset.
    pub open spec fn spec_has(self, f: FlagName) -> bool {
        match f {
            FlagName::Broadcast => self.broadcast,
            FlagName::Read => self.read,
            FlagName::Write => self.write,
            FlagName::WriteWoResponse => self.write_wo_response,
            FlagName::Notify => self.notify,
            FlagName::Indicate => self.indicate,
            FlagName::AuthSignedWrites => self.auth_signed_writes,
            FlagName::ExtendedProperties => self.extended_properties,
            FlagName::ReliableWrite => self.reliable_write,
            FlagName::WritableAuxiliaries => self.writable_auxiliaries,
            FlagName::EncryptRead => self.encrypt_read,
            FlagName::EncryptWrite => self.encrypt_write,
            FlagName::EncryptAuthRead => self.encrypt_auth_read,
            FlagName::EncryptAuthWrite => self.encrypt_auth_write,
            FlagName::SecureWrite => self.secure_write,
            FlagName::SecureRead => self.secure_read,
            FlagName::Authorize => self.authorize,
        }
    }

    pub fn readable(&self) -> (r: bool)
        ensures
            r == self.spec_readable(),
    {
        self.read || self.secure_read || self.encrypt_read
    }

    pub fn writable(&self) -> (r: bool)
        ensures
            r == self.spec_writable(),
    {
        self.write || self.write_wo_response || self.secure_write || self.encrypt_write
            || self.encrypt_auth_write
    }

    pub fn notifiable(&self) -> (r: bool)
        ensures
            r == self.spec_notifiable(),
    {
        self.notify || self.indicate
    }

    /// The wire names of the set flags, in the canonical emission order.
    pub open spec fn to_strings_spec(self) -> Seq<Seq<char>> {
        let s = Seq::empty();
        let s = add_if(s, self.broadcast, "broadcast"@);
        let s = add_if(s, self.read, "read"@);
        let s = add_if(s, self.write, "write"@);
        let s = add_if(s, self.write_wo_response, "write-without-response"@);
        let s = add_if(s, self.notify, "notify"@);
        let s = add_if(s, self.indicate, "indicate"@);
        let s = add_if(s, self.auth_signed_writes, "authenticated-signed-writes"@);
        let s = add_if(s, self.extended_properties, "extended-properties"@);
        let s = add_if(s, self.reliable_write, "reliable-write"@);
        let s = add_if(s, self.writable_auxiliaries, "writable-auxiliaries"@);
        let s = add_if(s, self.encrypt_read, "encrypt-read"@);
        let s = add_if(s, self.encrypt_write, "encrypt-write"@);
        let s = add_if(s, self.encrypt_auth_read, "encrypt-authenticated-read"@);
        let s = add_if(s, self.encrypt_auth_write, "encrypt-authenticated-write"@);
        let s = add_if(s, self.secure_write, "secure-write"@);
        let s = add_if(s, self.secure_read, "secure-read"@);
        add_if(s, self.authorize, "authorize"@)
    }

    /// Serializes the set flags to their wire string-array representation.
    #[verifier::rlimit(60)]
    pub fn to_strings(&self) -> (r: Vec<String>)
        ensures
            strs_view(r@) == self.to_strings_spec(),
    {
        let mut ret: Vec<String> = Vec::new();
        proof {
            assert(strs_view(ret@) =~= Seq::empty());
        }
        push_if(&mut ret, self.broadcast, "broadcast");
        push_if(&mut ret, self.read, "read");
        push_if(&mut ret, self.write, "write");
        push_if(&mut ret, self.write_wo_response, "write-without-response");
        push_if(&mut ret, self.notify, "notify");
        push_if(&mut ret, self.indicate, "indicate");
        push_if(&mut ret, self.auth_signed_writes, "authenticated-signed-writes");
        push_if(&mut ret, self.extended_properties, "extended-properties");
        push_if(&mut ret, self.reliable_write, "reliable-write");
        push_if(&mut ret, self.writable_auxiliaries, "writable-auxiliaries");
        push_if(&mut ret, self.encrypt_read, "encrypt-read");
        push_if(&mut ret, self.encrypt_write, "encrypt-write");
        push_if(&mut ret, self.encrypt_auth_read, "encrypt-authenticated-read");
        push_if(&mut ret, self.encrypt_auth_write, "encrypt-authenticated-write");
        push_if(&mut ret, self.secure_write, "secure-write");
        push_if(&mut ret, self.secure_read, "secure-read");
        push_if(&mut ret, self.authorize, "authorize");
        ret
    }

    /// Every flag of `r` is set exactly when its wire name occurs in `ss`.
    pub open spec fn decodes(ss: Seq<String>, r: CharFlags) -> bool {
        &&& r.broadcast == has_flag(ss, FlagName::Broadcast)
        &&& r.read == has_flag(ss, FlagName::Read)
        &&& r.write == has_flag(ss, FlagName::Write)
        &&& r.write_wo_response == has_flag(ss, FlagName::WriteWoResponse)
        &&& r.notify == has_flag(ss, FlagName::Notify)
        &&& r.indicate == has_flag(ss, FlagName::Indicate)
        &&& r.auth_signed_writes == has_flag(ss, FlagName::AuthSignedWrites)
        &&& r.extended_properties == has_flag(ss, FlagName::ExtendedProperties)
        &&& r.reliable_write == has_flag(ss, FlagName::ReliableWrite)
        &&& r.writable_auxiliaries == has_flag(ss, FlagName::WritableAuxiliaries)
        &&& r.encrypt_read == has_flag(ss, FlagName::EncryptRead)
        &&& r.encrypt_write == has_flag(ss, FlagName::EncryptWrite)
        &&& r.encrypt_auth_read == has_flag(ss, FlagName::EncryptAuthRead)
        &&& r.encrypt_auth_write == has_flag(ss, FlagName::EncryptAuthWrite)
        &&& r.secure_write == has_flag(ss, FlagName::SecureWrite)
        &&& r.secure_read == has_flag(ss, FlagName::SecureRead)
        &&& r.authorize == has_flag(ss, FlagName::Authorize)
    }

    /// Decodes a wire string array: a flag is set exactly when its name
    /// occurs. Every string must be a known flag name.
    #[verifier::rlimit(100)]
    pub fn from_strings(flags: &[String]) -> (r: CharFlags)
        requires
            forall|i: int| 0 <= i < flags@.len() ==> known_flag(flags@[i]@),
        ensures
            CharFlags::decodes(flags@, r),
    {
        let mut ret = CharFlags::default();
        let mut j: usize = 0;
        while j < flags.len()
            invariant
                j <= flags@.len(),
                CharFlags::decodes(flags@.take(j as int), ret),
            decreases flags@.len() - j,
        {
            let ghost pre = ret;
            match flag_from_str(flags[j].as_str()) {
                Some(f) => {
                    set_flag(&mut ret, f);
                    proof {
                        lemma_decode_step(flags@.take(j as int), flags@[j as int], pre, ret);
                    }
                },
                None => {
                    proof {
                        lemma_has_flag_push(flags@.take(j as int), flags@[j as int]);
                    }
                },
            }
            proof {
                assert(flags@.take(j as int + 1) =~= flags@.take(j as int).push(flags@[j as int]));
            }
            j = j + 1;
        }
        proof {
            assert(flags@.take(flags@.len() as int) =~= flags@);
        }
        ret
    }
}

/// Appends `name` to `v` when `b` is set, mirroring [`add_if`].
fn push_if(v: &mut Vec<String>, b: bool, name: &str)
    ensures
        strs_view(final(v)@) == add_if(strs_view(old(v)@), b, name@),
{
    if b {
        let s = String::from_str(name);
        proof {
            assert(strs_view(v@.push(s)) =~= strs_view(v@).push(s@));
        }
        v.push(s);
    }
}

/// Appends the wire name `s` exactly when its flag `b` is set.
pub open spec fn add_if(acc: Seq<Seq<char>>, b: bool, s: Seq<char>) -> Seq<Seq<char>> {
    if b {
        acc.push(s)
    } else {
        acc
    }
}

/// Sets the one flag that `f` names, leaving the rest alone.
fn set_flag(ret: &mut CharFlags, f: FlagName)
    ensures
        final(ret).broadcast == (old(ret).broadcast || f == FlagName::Broadcast),
        final(ret).read == (old(ret).read || f == FlagName::Read),
        final(ret).write == (old(ret).write || f == FlagName::Write),
        final(ret).write_wo_response == (old(ret).write_wo_response || f
            == FlagName::WriteWoResponse),
        final(ret).notify == (old(ret).notify || f == FlagName::Notify),
        final(ret).indicate == (old(ret).indicate || f == FlagName::Indicate),
        final(ret).auth_signed_writes == (old(ret).auth_signed_writes || f
            == FlagName::AuthSignedWrites),
        final(ret).extended_properties == (old(ret).extended_properties || f
            == FlagName::ExtendedProperties),
        final(ret).reliable_write == (old(ret).reliable_write || f == FlagName::ReliableWrite),
        final(ret).writable_auxiliaries == (old(ret).writable_auxiliaries || f
            == FlagName::WritableAuxiliaries),
        final(ret).encrypt_read == (old(ret).encrypt_read || f == FlagName::EncryptRead),
        final(ret).encrypt_write == (old(ret).encrypt_write || f == FlagName::EncryptWrite),
        final(ret).encrypt_auth_read == (old(ret).encrypt_auth_read || f
            == FlagName::EncryptAuthRead),
        final(ret).encrypt_auth_write == (old(ret).encrypt_auth_write || f
            == FlagName::EncryptAuthWrite),
        final(ret).secure_write == (old(ret).secure_write || f == FlagName::SecureWrite),
        final(ret).secure_read == (old(ret).secure_read || f == FlagName::SecureRead),
        final(ret).authorize == (old(ret).authorize || f == FlagName::Authorize),
{
    *ret = CharFlags {
        broadcast: ret.broadcast || f == FlagName::Broadcast,
        read: ret.read || f == FlagName::Read,
        write: ret.write || f == FlagName::Write,
        write_wo_response: ret.write_wo_response || f == FlagName::WriteWoResponse,
        notify: ret.notify || f == FlagName::Notify,
        indicate: ret.indicate || f == FlagName::Indicate,
        auth_signed_writes: ret.auth_signed_writes || f == FlagName::AuthSignedWrites,
        extended_properties: ret.extended_properties || f == FlagName::ExtendedProperties,
        reliable_write: ret.reliable_write || f == FlagName::ReliableWrite,
        writable_auxiliaries: ret.writable_auxiliaries || f == FlagName::WritableAuxiliaries,
        encrypt_read: ret.encrypt_read || f == FlagName::EncryptRead,
        encrypt_write: ret.encrypt_write || f == FlagName::EncryptWrite,
        encrypt_auth_read: ret.encrypt_auth_read || f == FlagName::EncryptAuthRead,
        encrypt_auth_write: ret.encrypt_auth_write || f == FlagName::EncryptAuthWrite,
        secure_write: ret.secure_write || f == FlagName::SecureWrite,
        secure_read: ret.secure_read || f == FlagName::SecureRead,
        authorize: ret.authorize || f == FlagName::Authorize,
    };
}

/// One decoding step: after folding in the string `x`, the bitset decodes
/// the extended list.
#[verifier::rlimit(100)]
proof fn lemma_decode_step(ss: Seq<String>, x: String, pre: CharFlags, post: CharFlags)
    requires
        CharFlags::decodes(ss, pre),
        post.broadcast == (pre.broadcast || flag_name_spec(x@) == Some(FlagName::Broadcast)),
        post.read == (pre.read || flag_name_spec(x@) == Some(FlagName::Read)),
        post.write == (pre.write || flag_name_spec(x@) == Some(FlagName::Write)),
        post.write_wo_response == (pre.write_wo_response || flag_name_spec(x@) == Some(
            FlagName::WriteWoResponse,
        )),
        post.notify == (pre.notify || flag_name_spec(x@) == Some(FlagName::Notify)),
        post.indicate == (pre.indicate || flag_name_spec(x@) == Some(FlagName::Indicate)),
        post.auth_signed_writes == (pre.auth_signed_writes || flag_name_spec(x@) == Some(
            FlagName::AuthSignedWrites,
        )),
        post.extended_properties == (pre.extended_properties || flag_name_spec(x@) == Some(
            FlagName::ExtendedProperties,
        )),
        post.reliable_write == (pre.reliable_write || flag_name_spec(x@) == Some(
            FlagName::ReliableWrite,
        )),
        post.writable_auxiliaries == (pre.writable_auxiliaries || flag_name_spec(x@) == Some(
            FlagName::WritableAuxiliaries,
        )),
        post.encrypt_read == (pre.encrypt_read || flag_name_spec(x@) == Some(
            FlagName::EncryptRead,
        )),
        post.encrypt_write == (pre.encrypt_write || flag_name_spec(x@) == Some(
            FlagName::EncryptWrite,
        )),
        post.encrypt_auth_read == (pre.encrypt_auth_read || flag_name_spec(x@) == Some(
            FlagName::EncryptAuthRead,
        )),
        post.encrypt_auth_write == (pre.encrypt_auth_write || flag_name_spec(x@) == Some(
            FlagName::EncryptAuthWrite,
        )),
        post.secure_write == (pre.secure_write || flag_name_spec(x@) == Some(
            FlagName::SecureWrite,
        )),
        post.secure_read == (pre.secure_read || flag_name_spec(x@) == Some(FlagName::SecureRead)),
        post.authorize == (pre.authorize || flag_name_spec(x@) == Some(FlagName::Authorize)),
    ensures
        CharFlags::decodes(ss.push(x), post),
{
    lemma_has_flag_push(ss, x);
}

/// Appending one string to a list changes name membership exactly by
/// whether the appended string names that property.
proof fn lemma_has_flag_push(ss: Seq<String>, x: String)
    ensures
        forall|f: FlagName| #[trigger] has_flag(ss.push(x), f) == (has_flag(ss, f)
            || flag_name_spec(x@) == Some(f)),
{
    assert(ss.push(x).drop_last() =~= ss);
    assert(ss.push(x).last() == x);
}

impl Default for CharFlags {
    /// All flags cleared.
    fn default() -> (r: CharFlags)
        ensures
            r.spec_none(),
    {
        CharFlags {
            broadcast: false,
            read: false,
            write_wo_response: false,
            write: false,
            notify: false,
            indicate: false,
            auth_signed_writes: false,
            extended_properties: false,
            reliable_write: false,
            writable_auxiliaries: false,
            encrypt_read: false,
            encrypt_write: false,
            encrypt_auth_read: false,
            encrypt_auth_write: false,
            secure_read: false,
            secure_write: false,
            authorize: false,
        }
    }
}

} // verus!
