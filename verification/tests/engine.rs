use gatt_bus::characteristic::{
    AcceptAll, CallOutcome, LocalCharBase, LocalDescBase, RejectAll,
};
use gatt_bus::flags::CharFlags;
use gatt_bus::service::LocalServiceBase;
use gatt_bus::strmap::StrMap;
use gatt_bus::value::FixedSource;
use gatt_bus::wire::{Arg, DictValue, MethodCall, RVal, Reply};

type Char = LocalCharBase<FixedSource, AcceptAll>;
type CharRej = LocalCharBase<FixedSource, RejectAll>;
type Service = LocalServiceBase<FixedSource, AcceptAll>;

fn call(member: &str, args: Vec<Arg>) -> MethodCall {
    MethodCall {
        path: Vec::new(),
        interface: String::from("org.bluez.GattCharacteristic1"),
        member: String::from(member),
        args,
    }
}

fn offset_dict(off: u16) -> Arg {
    let mut d = StrMap::new();
    d.insert(String::from("offset"), DictValue::U16(off));
    Arg::Dict(d)
}

fn mtu_dict(mtu: u16) -> Arg {
    let mut d = StrMap::new();
    d.insert(String::from("mtu"), DictValue::U16(mtu));
    Arg::Dict(d)
}

fn read_write_flags() -> CharFlags {
    let mut f = CharFlags::default();
    f.read = true;
    f.write = true;
    f
}

fn reply_bytes(r: &Reply) -> Vec<u8> {
    match r {
        Reply::Success(vals) => match &vals[0] {
            RVal::Bytes(b) => b.clone(),
            other => panic!("expected bytes, got {:?}", std::mem::discriminant(other)),
        },
        Reply::Error { name, detail } => panic!("error reply {} {:?}", name, detail),
    }
}

fn err_name(r: &Reply) -> &str {
    match r {
        Reply::Error { name, .. } => name.as_str(),
        Reply::Success(_) => panic!("expected an error reply"),
    }
}

fn seed(c: &mut Char, bytes: &[u8]) {
    let _sigs = c.write_wait(bytes);
}

#[test]
fn read_then_offset_write_then_offset_read() {
    // create a characteristic with read and write only, value [1,2,3]
    let mut c = Char::new("0001", read_write_flags());
    seed(&mut c, &[1, 2, 3]);

    let out: CallOutcome = c.char_call(&call("ReadValue", Vec::new()));
    assert_eq!(reply_bytes(&out.reply), vec![1, 2, 3]);

    let out = c.char_call(&call(
        "WriteValue",
        vec![Arg::Bytes(vec![9, 9]), offset_dict(1)],
    ));
    assert!(matches!(out.reply, Reply::Success(_)));
    let (v, _) = c.read_wait();
    assert_eq!(v.as_slice(), &[1, 9, 9]);

    let out = c.char_call(&call("ReadValue", vec![offset_dict(1)]));
    assert_eq!(reply_bytes(&out.reply), vec![9, 9]);
}

#[test]
fn oversized_write_rejected_and_value_untouched() {
    let mut c = Char::new("0001", read_write_flags());
    seed(&mut c, &[5, 5]);
    let payload = vec![0u8; 200];
    let out = c.char_call(&call(
        "WriteValue",
        vec![Arg::Bytes(payload), offset_dict(400)],
    ));
    assert_eq!(err_name(&out.reply), "org.bluez.Error.InvalidValueLength");
    let (v, _) = c.read_wait();
    assert_eq!(v.as_slice(), &[5, 5]);
}

#[test]
fn write_of_exactly_512_is_accepted() {
    let mut c = Char::new("0001", read_write_flags());
    let payload = vec![3u8; 512];
    let out = c.char_call(&call("WriteValue", vec![Arg::Bytes(payload.clone())]));
    assert!(matches!(out.reply, Reply::Success(_)));
    let (v, _) = c.read_wait();
    assert_eq!(v.as_slice(), payload.as_slice());
}

#[test]
fn read_without_read_capability_not_permitted() {
    let mut f = CharFlags::default();
    f.write = true;
    let mut c = Char::new("0001", f);
    seed(&mut c, &[1]);
    let out = c.char_call(&call("ReadValue", Vec::new()));
    assert_eq!(err_name(&out.reply), "org.bluez.Error.NotPermitted");
    let (v, _) = c.read_wait();
    assert_eq!(v.as_slice(), &[1]);
}

#[test]
fn notify_state_machine_excludes_competitors() {
    let mut f = CharFlags::default();
    f.notify = true;
    let mut c = Char::new("0001", f);

    let out = c.char_call(&call("StartNotify", Vec::new()));
    assert!(matches!(out.reply, Reply::Success(_)));
    assert!(c.notifying());

    let out = c.char_call(&call("StartNotify", Vec::new()));
    assert_eq!(err_name(&out.reply), "org.bluez.Error.InProgress");

    let out = c.char_call(&call("AcquireNotify", Vec::new()));
    assert_eq!(err_name(&out.reply), "org.bluez.Error.InProgress");
    match &out.reply {
        Reply::Error { detail, .. } => assert_eq!(
            detail.as_deref(),
            Some("This characteristic is already notifying via signals.")
        ),
        _ => unreachable!(),
    }

    let out = c.char_call(&call("StopNotify", Vec::new()));
    assert!(matches!(out.reply, Reply::Success(_)));
    assert!(!c.notifying());

    let out = c.char_call(&call("StartNotify", Vec::new()));
    assert!(matches!(out.reply, Reply::Success(_)));
}

#[test]
fn stop_notify_when_idle_fails() {
    let mut f = CharFlags::default();
    f.notify = true;
    let mut c = Char::new("0001", f);
    let out = c.char_call(&call("StopNotify", Vec::new()));
    assert_eq!(err_name(&out.reply), "org.bluez.Error.Failed");
}

#[test]
fn acquire_notify_on_indicate_only_negotiates_mtu() {
    let mut f = CharFlags::default();
    f.indicate = true;
    let mut c = Char::new("0001", f);

    let out = c.char_call(&call("AcquireNotify", vec![mtu_dict(20)]));
    match &out.reply {
        Reply::Success(vals) => {
            assert!(matches!(vals[0], RVal::Fd(_)));
            match vals[1] {
                RVal::U16(mtu) => assert!(mtu <= 20),
                _ => panic!("expected a u16 mtu"),
            }
        }
        Reply::Error { name, detail } => panic!("error {} {:?}", name, detail),
    }
    assert!(c.notify_acquired());

    let out = c.char_call(&call("AcquireNotify", vec![mtu_dict(20)]));
    assert_eq!(err_name(&out.reply), "org.bluez.Error.InProgress");
    match &out.reply {
        Reply::Error { detail, .. } => assert_eq!(
            detail.as_deref(),
            Some("This characteristic is already notifying via a socket.")
        ),
        _ => unreachable!(),
    }
}

#[test]
fn start_notify_needs_notify_flag() {
    let mut f = CharFlags::default();
    f.indicate = true;
    let mut c = Char::new("0001", f);
    let out = c.char_call(&call("StartNotify", Vec::new()));
    assert_eq!(err_name(&out.reply), "org.bluez.Error.NotPermitted");
}

#[test]
fn acquire_write_needs_explicit_enable() {
    let mut c = Char::new("0001", read_write_flags());
    let out = c.char_call(&call("AcquireWrite", Vec::new()));
    assert_eq!(err_name(&out.reply), "org.bluez.Error.NotSupported");
}

#[test]
fn fast_path_write_is_read_back_verbatim() {
    let mut c = Char::new("0001", read_write_flags());
    c.enable_write_fd(true);
    let out = c.char_call(&call("AcquireWrite", vec![mtu_dict(64)]));
    let peer = match &out.reply {
        Reply::Success(vals) => match vals[0] {
            RVal::Fd(fd) => fd,
            _ => panic!("expected the peer descriptor"),
        },
        Reply::Error { name, detail } => panic!("error {} {:?}", name, detail),
    };
    assert!(c.write_acquired());

    nix::sys::socket::send(peer, &[7, 8, 9], nix::sys::socket::MsgFlags::MSG_EOR).unwrap();

    let out = c.char_call(&call("ReadValue", Vec::new()));
    assert_eq!(reply_bytes(&out.reply), vec![7, 8, 9]);
    nix::unistd::close(peer).ok();
}

#[test]
fn second_acquire_write_in_progress() {
    let mut c = Char::new("0001", read_write_flags());
    c.enable_write_fd(true);
    let out = c.char_call(&call("AcquireWrite", Vec::new()));
    assert!(matches!(out.reply, Reply::Success(_)));
    let out = c.char_call(&call("AcquireWrite", Vec::new()));
    assert_eq!(err_name(&out.reply), "org.bluez.Error.InProgress");
}

#[test]
fn rejecting_callback_keeps_value_and_relays_strings() {
    let mut c = CharRej::new("0001", read_write_flags());
    let _ = c.write_wait(&[4, 4]);
    c.write_callback = Some(RejectAll {
        name: String::from("com.example.Refused"),
        detail: Some(String::from("no thanks")),
    });
    let out = c.char_call(&call("WriteValue", vec![Arg::Bytes(vec![1, 2])]));
    match &out.reply {
        Reply::Error { name, detail } => {
            assert_eq!(name, "com.example.Refused");
            assert_eq!(detail.as_deref(), Some("no thanks"));
        }
        _ => panic!("expected the callback's error"),
    }
    c.write_callback = None;
    let (v, _) = c.read_wait();
    assert_eq!(v.as_slice(), &[4, 4]);
}

#[test]
fn signal_mode_write_notification_carries_value() {
    let mut f = read_write_flags();
    f.notify = true;
    let mut c = LocalCharBase::<FixedSource, gatt_bus::characteristic::AcceptNotify>::new(
        "0001", f,
    );
    c.write_callback = Some(gatt_bus::characteristic::AcceptNotify {});
    let out = c.char_call(&call("StartNotify", Vec::new()));
    assert!(matches!(out.reply, Reply::Success(_)));
    let out = c.char_call(&call("WriteValue", vec![Arg::Bytes(vec![6, 6])]));
    assert!(matches!(out.reply, Reply::Success(_)));
    assert_eq!(out.signals.len(), 1);
    let sig = &out.signals[0];
    assert_eq!(sig.interface, "org.freedesktop.DBus.Properties");
    assert_eq!(sig.member, "PropertiesChanged");
    match &sig.args[1] {
        Arg::Dict(d) => match d.get("Value") {
            Some(DictValue::Bytes(b)) => assert_eq!(b.as_slice(), &[6, 6]),
            _ => panic!("expected the value bytes"),
        },
        _ => panic!("expected the changed dictionary"),
    }
}

#[test]
fn unknown_method_named_error() {
    let mut c = Char::new("0001", read_write_flags());
    let out = c.char_call(&call("Frobnicate", Vec::new()));
    assert_eq!(err_name(&out.reply), "org.freedesktop.DBus.Error.UnknownMethod");
}

#[test]
fn wrong_parameter_shapes_are_named_errors() {
    let mut c = Char::new("0001", read_write_flags());
    // a non-dict first argument to ReadValue
    let out = c.char_call(&call("ReadValue", vec![Arg::Bytes(vec![1])]));
    assert_eq!(err_name(&out.reply), "UnexpectedType");
    // a wrongly typed offset variant
    let mut d = StrMap::new();
    d.insert(String::from("offset"), DictValue::Str(String::from("x")));
    let out = c.char_call(&call("ReadValue", vec![Arg::Dict(d)]));
    assert_eq!(err_name(&out.reply), "UnexpectedType");
    // a non-bytes first argument to WriteValue
    let out = c.char_call(&call("WriteValue", vec![Arg::U16(4)]));
    assert_eq!(err_name(&out.reply), "org.bluez.Error.Failed");
}

#[test]
fn three_characteristics_get_sequential_paths() {
    let mut s = Service::new("000a");
    s.update_path(b"/org/example/app");
    s.add_char(Char::new("c0", read_write_flags()));
    s.add_char(Char::new("c1", read_write_flags()));
    s.add_char(Char::new("c2", read_write_flags()));
    let expected = [
        ("c0", "char0000"),
        ("c1", "char0001"),
        ("c2", "char0002"),
    ];
    for (uuid, seg) in expected {
        let c = s.chars.get(uuid).expect("characteristic present");
        let path = String::from_utf8(c.path.clone()).unwrap();
        assert!(path.ends_with(seg), "{} does not end with {}", path, seg);
        assert!(path.starts_with("/org/example/app/service0000/"));
    }
}

#[test]
fn descriptor_paths_follow_characteristic() {
    let mut c = Char::new("00cc", read_write_flags());
    c.add_desc(LocalDescBase::new("dd00"));
    c.add_desc(LocalDescBase::new("dd01"));
    c.update_path(b"/org/example/app/service0000");
    let d = c.descs.get("dd01").expect("descriptor present");
    let path = String::from_utf8(d.path.clone()).unwrap();
    assert!(path.ends_with("desc0001"), "{}", path);
    assert_eq!(d.char_uuid, "00cc");
}

#[test]
fn properties_reflect_engine_state() {
    let mut c = Char::new("abcd", read_write_flags());
    seed(&mut c, &[1, 2]);
    c.update_path(b"/org/example/app/service0000");
    match c.get_inner("org.bluez.GattCharacteristic1", "UUID") {
        Some(Arg::Str(u)) => assert_eq!(u, "abcd"),
        _ => panic!("expected the uuid"),
    }
    match c.get_inner("org.bluez.GattCharacteristic1", "Value") {
        Some(Arg::Bytes(b)) => assert_eq!(b, vec![1, 2]),
        _ => panic!("expected the value"),
    }
    match c.get_inner("org.bluez.GattCharacteristic1", "Service") {
        Some(Arg::Path(p)) => assert_eq!(p, b"/org/example/app/service0000".to_vec()),
        _ => panic!("expected the parent path"),
    }
    match c.get_inner("org.bluez.GattCharacteristic1", "Notifying") {
        Some(Arg::Bool(b)) => assert!(!b),
        _ => panic!("expected a boolean"),
    }
    // signal-mode notifying: the notifying property turns true, but
    // notify-acquired stays tied to fd acquisition
    let mut f2 = read_write_flags();
    f2.notify = true;
    let mut c2 = Char::new("ef01", f2);
    let out = c2.char_call(&call("StartNotify", Vec::new()));
    assert!(matches!(out.reply, Reply::Success(_)));
    match c2.get_inner("org.bluez.GattCharacteristic1", "Notifying") {
        Some(Arg::Bool(b)) => assert!(b),
        _ => panic!("expected a boolean"),
    }
    match c2.get_inner("org.bluez.GattCharacteristic1", "NotifyAcquired") {
        Some(Arg::Bool(b)) => assert!(!b),
        _ => panic!("expected a boolean"),
    }
    let out = c2.char_call(&call("StopNotify", Vec::new()));
    assert!(matches!(out.reply, Reply::Success(_)));
    let out = c2.char_call(&call("AcquireNotify", Vec::new()));
    assert!(matches!(out.reply, Reply::Success(_)));
    match c2.get_inner("org.bluez.GattCharacteristic1", "NotifyAcquired") {
        Some(Arg::Bool(b)) => assert!(b),
        _ => panic!("expected a boolean"),
    }
    assert!(c.get_inner("org.bluez.GattCharacteristic1", "Nonsense").is_none());
    assert!(c.get_inner("org.example.Other", "UUID").is_none());

    assert!(c
        .set_inner("org.bluez.GattCharacteristic1", "Handle", &DictValue::U16(7))
        .is_none());
    match c.get_inner("org.bluez.GattCharacteristic1", "Handle") {
        Some(Arg::U16(h)) => assert_eq!(h, 7),
        _ => panic!("expected the handle"),
    }
    assert_eq!(
        c.set_inner(
            "org.bluez.GattCharacteristic1",
            "Handle",
            &DictValue::Str(String::from("x"))
        )
        .as_deref(),
        Some("UnexpectedType")
    );
    assert_eq!(
        c.set_inner("org.bluez.GattCharacteristic1", "Nonsense", &DictValue::U16(0))
            .as_deref(),
        Some("UnknownProperty")
    );
    assert_eq!(
        c.set_inner("org.example.Other", "Handle", &DictValue::U16(0)).as_deref(),
        Some("UnknownInterface")
    );
    assert_eq!(
        c.set_inner("org.freedesktop.DBus.Properties", "Handle", &DictValue::U16(0))
            .as_deref(),
        Some("UnknownProperty")
    );
}

#[test]
fn introspection_documents_name_path_and_children() {
    let mut c = Char::new("00cc", read_write_flags());
    c.add_desc(LocalDescBase::new("dd00"));
    c.update_path(b"/org/example/app/service0000");
    let doc = String::from_utf8(c.introspect()).unwrap();
    assert!(doc.starts_with("<!DOCTYPE node PUBLIC"));
    assert!(doc.contains("/org/example/app/service0000/char0000"));
    assert!(doc.contains("org.bluez.GattCharacteristic1"));
    assert!(doc.contains("org.freedesktop.DBus.Properties"));
    assert!(doc.contains("<node name=\"desc0000\"/>"));
    assert!(doc.ends_with("</node>"));

    let mut ad = gatt_bus::advertisement::Advertisement::new(
        gatt_bus::advertisement::AdType::Peripheral,
        String::from("demo"),
    );
    ad.path = b"/org/example/app/adv0000".to_vec();
    let doc = String::from_utf8(ad.introspect()).unwrap();
    assert!(doc.contains("/org/example/app/adv0000"));
    assert!(doc.contains("org.bluez.LEAdvertisement1"));
}
