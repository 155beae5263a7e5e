use gatt_bus::advertisement::{validate_uuid, AdType, Advertisement};
use gatt_bus::device::RemoteDevice;
use gatt_bus::flags::CharFlags;
use gatt_bus::pending::Pending;
use gatt_bus::remote::{mm_to_charvalue, RemoteCharBase, RemoteDescBase, RemoteServiceBase};
use gatt_bus::strmap::StrMap;
use gatt_bus::value::CharValue;
use gatt_bus::wire::{Arg, DictValue, RVal, Reply};
use gatt_bus::Error;

#[test]
fn update_keeps_prefix_and_appends() {
    let mut v = CharValue::from_slice(&[1, 2, 3, 4]);
    v.update(&[9, 9], 1);
    assert_eq!(v.as_slice(), &[1, 9, 9]);
    v.extend_from_slice(&[5]);
    assert_eq!(v.as_slice(), &[1, 9, 9, 5]);
    let mut w = CharValue::new();
    w.update(&[1], 0);
    assert_eq!(w.as_slice(), &[1]);
}

#[test]
fn flags_survive_a_wire_round_trip() {
    let mut f = CharFlags::default();
    f.read = true;
    f.write = true;
    f.indicate = true;
    f.secure_read = true;
    f.encrypt_auth_write = true;
    let names = f.to_strings();
    let texts: Vec<&str> = names.iter().map(|s| s.as_str()).collect();
    assert_eq!(
        texts,
        vec!["read", "write", "indicate", "encrypt-authenticated-write", "secure-read"]
    );
    let back = CharFlags::from_strings(&names);
    assert_eq!(back, f);
}

#[test]
fn unsupported_encode_flags_have_wire_names_too() {
    let mut f = CharFlags::default();
    f.auth_signed_writes = true;
    f.writable_auxiliaries = true;
    f.authorize = true;
    let names = f.to_strings();
    let texts: Vec<&str> = names.iter().map(|s| s.as_str()).collect();
    assert_eq!(
        texts,
        vec!["authenticated-signed-writes", "writable-auxiliaries", "authorize"]
    );
}

#[test]
fn uuid_format_is_checked() {
    assert!(validate_uuid("0123abcd-0000-1000-8000-00805f9b34fb"));
    assert!(!validate_uuid("0123abcd-0000-1000-8000-00805f9b34f"));
    assert!(!validate_uuid("0123abcd00001000800000805f9b34fbXX"));
    assert!(!validate_uuid("0123abcd-0000-1000-8000-00805g9b34fb"));
    assert!(!validate_uuid(""));
}

#[test]
fn advertisement_validate_reports_offender() {
    let mut ad = Advertisement::new(AdType::Peripheral, String::from("demo"));
    ad.service_uuids.push(String::from("0123abcd-0000-1000-8000-00805f9b34fb"));
    assert!(ad.validate().is_ok());
    ad.solicit_uuids.push(String::from("nonsense"));
    match ad.validate() {
        Err(Error::BadInput(u)) => {
            assert_eq!(u, "nonsense is an invalid uuid in solicit_uuids")
        }
        _ => panic!("expected the invalid uuid back"),
    }
    ad.service_uuids.push(String::from("also-bad"));
    match ad.validate() {
        Err(Error::BadInput(u)) => {
            assert_eq!(u, "also-bad is an invalid uuid in service_uuids")
        }
        _ => panic!("expected the invalid uuid back"),
    }
}

#[test]
fn advertisement_properties_decay_with_the_clock() {
    let mut ad = Advertisement::new(AdType::Broadcast, String::from("demo"));
    ad.appearance = 0x0040;
    ad.timeout_start = 100;
    ad.duration_start = 100;
    assert_eq!(AdType::Broadcast.to_str(), "broadcast");
    match ad.get_inner("org.bluez.LEAdvertisement1", "Type", 100) {
        Some(Arg::Str(s)) => assert_eq!(s, "broadcast"),
        _ => panic!("expected the type"),
    }
    match ad.get_inner("org.bluez.LEAdvertisement1", "Appearance", 100) {
        Some(Arg::U16(a)) => assert_eq!(a, 0x0040),
        _ => panic!("expected the appearance"),
    }
    match ad.get_inner("org.bluez.LEAdvertisement1", "Timeout", 130) {
        Some(Arg::U16(t)) => assert_eq!(t, 150),
        _ => panic!("expected the remaining timeout"),
    }
    match ad.get_inner("org.bluez.LEAdvertisement1", "Duration", 100 + 500) {
        Some(Arg::U16(t)) => assert_eq!(t, 0),
        _ => panic!("expected a saturated duration"),
    }
    assert!(ad.get_inner("org.bluez.LEAdvertisement1", "Data", 0).is_none());
    assert!(ad.get_inner("org.other", "Type", 0).is_none());
}

#[test]
fn device_snapshot_parses_or_names_the_missing_field() {
    let mut props = StrMap::new();
    props.insert(String::from("Address"), DictValue::Str(String::from("aa:bb")));
    props.insert(String::from("Connected"), DictValue::Bool(true));
    props.insert(String::from("Paired"), DictValue::Bool(false));
    let d = RemoteDevice::from_props(&props, b"/dev".to_vec()).unwrap();
    assert_eq!(d.mac, "aa:bb");
    assert!(d.connected());
    assert!(!d.paired());

    let mut missing = StrMap::new();
    missing.insert(String::from("Connected"), DictValue::Bool(true));
    missing.insert(String::from("Paired"), DictValue::Bool(false));
    match RemoteDevice::from_props(&missing, Vec::new()) {
        Err(Error::DbusReqErr(m)) => {
            assert_eq!(m, "Invalid device returned; missing Address field")
        }
        _ => panic!("expected the missing-field error"),
    }

    let mut bad = StrMap::new();
    bad.insert(String::from("Address"), DictValue::Str(String::from("aa:bb")));
    bad.insert(String::from("Connected"), DictValue::U16(1));
    bad.insert(String::from("Paired"), DictValue::Bool(false));
    match RemoteDevice::from_props(&bad, Vec::new()) {
        Err(Error::DbusReqErr(m)) => {
            assert_eq!(m, "Invalid device returned; Connected field is invalid type")
        }
        _ => panic!("expected the wrong-type error"),
    }
}

#[test]
fn change_notifications_update_flags_and_ignore_strangers() {
    let mut props = StrMap::new();
    props.insert(String::from("Address"), DictValue::Str(String::from("aa:bb")));
    props.insert(String::from("Connected"), DictValue::Bool(false));
    props.insert(String::from("Paired"), DictValue::Bool(false));
    let mut d = RemoteDevice::from_props(&props, Vec::new()).unwrap();

    let mut changed = StrMap::new();
    changed.insert(String::from("Connected"), DictValue::Bool(true));
    changed.insert(String::from("RSSI"), DictValue::U16(42));
    assert!(d.update_from_changed(&changed).is_ok());
    assert!(d.connected());
    assert!(!d.paired());

    let mut bad = StrMap::new();
    bad.insert(String::from("Paired"), DictValue::Str(String::from("yes")));
    assert!(d.update_from_changed(&bad).is_err());
    assert!(!d.paired());
}

#[test]
fn remote_char_snapshot_and_read_mapping() {
    let mut props = StrMap::new();
    props.insert(String::from("UUID"), DictValue::Str(String::from("2a00")));
    let c = RemoteCharBase::from_props(&props, b"/dev/service0000/char0000".to_vec()).unwrap();
    assert_eq!(c.uuid, "2a00");
    let call = c.read_call();
    assert_eq!(call.member, "ReadValue");
    assert_eq!(call.path, b"/dev/service0000/char0000".to_vec());

    let empty = StrMap::new();
    match RemoteCharBase::from_props(&empty, Vec::new()) {
        Err(Error::DbusReqErr(m)) => assert_eq!(m, "Invalid device returned; missing UUID field"),
        _ => panic!("expected the missing-field error"),
    }

    let ok = Reply::Success(vec![RVal::Bytes(vec![1, 2, 3])]);
    let cv = mm_to_charvalue(&ok).unwrap();
    assert_eq!(cv.as_slice(), &[1, 2, 3]);
    let err = Reply::Error { name: String::from("org.bluez.Error.Failed"), detail: None };
    assert!(mm_to_charvalue(&err).is_err());
}

#[test]
fn remote_notify_channel_delivers_datagrams() {
    let mut props = StrMap::new();
    props.insert(String::from("UUID"), DictValue::Str(String::from("2a00")));
    let mut c = RemoteCharBase::from_props(&props, Vec::new()).unwrap();

    assert!(matches!(c.try_get_notify(), Ok(None)));

    let (ours, theirs) = nix::sys::socket::socketpair(
        nix::sys::socket::AddressFamily::Unix,
        nix::sys::socket::SockType::SeqPacket,
        None,
        nix::sys::socket::SockFlag::SOCK_CLOEXEC,
    )
    .unwrap();
    let reply = Reply::Success(vec![RVal::Fd(ours), RVal::U16(64)]);
    assert_eq!(c.acquire_notify_finish(&reply).unwrap(), ours);
    assert_eq!(c.get_notify_fd(), Some(ours));

    nix::sys::socket::send(theirs, &[9, 9], nix::sys::socket::MsgFlags::MSG_EOR).unwrap();
    match c.try_get_notify() {
        Ok(Some(v)) => assert_eq!(v, vec![9, 9]),
        other => panic!("expected the datagram, got {:?}", other.is_ok()),
    }
    // nothing further queued: the poll does not block and reports an error
    assert!(c.try_get_notify().is_err());

    nix::sys::socket::send(theirs, &[1], nix::sys::socket::MsgFlags::MSG_EOR).unwrap();
    match c.wait_get_notify(Some(50_000)) {
        Ok(Some(v)) => assert_eq!(v, vec![1]),
        other => panic!("expected the datagram, got {:?}", other.is_ok()),
    }
    // with no timeout the wait blocks until a datagram arrives
    nix::sys::socket::send(theirs, &[2, 2], nix::sys::socket::MsgFlags::MSG_EOR).unwrap();
    match c.wait_get_notify(None) {
        Ok(Some(v)) => assert_eq!(v, vec![2, 2]),
        other => panic!("expected the datagram, got {:?}", other.is_ok()),
    }
    c.close_notify();
    assert!(matches!(c.try_get_notify(), Ok(None)));
    nix::unistd::close(theirs).ok();
}

#[test]
fn acquire_notify_reply_shape_is_checked() {
    let mut props = StrMap::new();
    props.insert(String::from("UUID"), DictValue::Str(String::from("2a00")));
    let mut c = RemoteCharBase::from_props(&props, Vec::new()).unwrap();
    let bad = Reply::Success(vec![RVal::U16(64)]);
    match c.acquire_notify_finish(&bad) {
        Err(Error::DbusReqErr(m)) => assert_eq!(m, "Response returned unexpected of parameter"),
        _ => panic!("expected the shape error"),
    }
    let err = Reply::Error { name: String::from("org.bluez.Error.NotPermitted"), detail: None };
    match c.acquire_notify_finish(&err) {
        Err(Error::DbusReqErr(m)) => assert_eq!(m, "org.bluez.Error.NotPermitted"),
        _ => panic!("expected the relayed error"),
    }
}

#[test]
fn device_handles_forget_services() {
    let mut props = StrMap::new();
    props.insert(String::from("Address"), DictValue::Str(String::from("aa:bb")));
    props.insert(String::from("Connected"), DictValue::Bool(false));
    props.insert(String::from("Paired"), DictValue::Bool(false));
    let mut d = RemoteDevice::from_props(&props, Vec::new()).unwrap();
    d.services.insert(
        String::from("000a"),
        gatt_bus::remote::RemoteServiceBase::new("000a", Vec::new()),
    );
    assert!(d.has_service("000a"));
    assert_eq!(d.services().len(), 1);
    assert!(d.forget_service("000a"));
    assert!(!d.forget_service("000a"));
    assert!(!d.has_service("000a"));
    assert!(matches!(d.connect(), Err(Error::Unsupported)));
    assert!(matches!(d.pair(), Err(Error::Unsupported)));
    assert_eq!(d.address(), "aa:bb");
}

#[test]
fn pending_handles_resolve_once() {
    let p = Pending::Resolved(5u32);
    assert!(p.is_resolved());
    assert_eq!(p.take_resolved(), 5);
    let w: Pending<u32> = Pending::Waiting { token: 9 };
    assert!(!w.is_resolved());
    assert_eq!(w.token(), 9);
}

#[test]
fn string_map_behaves_like_a_map() {
    let mut m: StrMap<u32> = StrMap::new();
    m.insert(String::from("a"), 1);
    m.insert(String::from("b"), 2);
    m.insert(String::from("a"), 3);
    assert_eq!(m.len(), 2);
    assert_eq!(m.get("a"), Some(&3));
    assert_eq!(m.get("c"), None);
    assert!(m.contains_key("b"));
    let keys = m.keys();
    assert_eq!(keys, vec![String::from("a"), String::from("b")]);
    assert_eq!(m.remove("a"), Some(3));
    assert_eq!(m.get("a"), None);
    assert_eq!(m.remove("a"), None);
}

#[test]
fn paths_route_to_the_matching_record() {
    let mut props = StrMap::new();
    props.insert(String::from("Address"), DictValue::Str(String::from("aa:bb")));
    props.insert(String::from("Connected"), DictValue::Bool(false));
    props.insert(String::from("Paired"), DictValue::Bool(false));
    let mut d = RemoteDevice::from_props(&props, b"/org/bluez/dev_AA".to_vec()).unwrap();

    let mut svc = RemoteServiceBase::new("000a", b"/org/bluez/dev_AA/service0004".to_vec());
    let mut ch = RemoteCharBase {
        uuid: String::from("2a00"),
        descs: StrMap::new(),
        notify_fd: None,
        path: b"/org/bluez/dev_AA/service0004/char0001".to_vec(),
    };
    ch.descs.insert(
        String::from("2902"),
        RemoteDescBase {
            uuid: String::from("2902"),
            path: b"/org/bluez/dev_AA/service0004/char0001/desc0000".to_vec(),
        },
    );
    svc.chars.insert(String::from("2a00"), ch);
    d.services.insert(String::from("000a"), svc);

    assert_eq!(d.match_dev(b"dev_AA"), Some(None));
    assert_eq!(
        d.match_dev(b"dev_AA/service0004"),
        Some(Some((String::from("000a"), None)))
    );
    assert_eq!(
        d.match_dev(b"dev_AA/service0004/char0001"),
        Some(Some((String::from("000a"), Some((String::from("2a00"), None)))))
    );
    assert_eq!(
        d.match_dev(b"dev_AA/service0004/char0001/desc0000"),
        Some(Some((
            String::from("000a"),
            Some((String::from("2a00"), Some(String::from("2902"))))
        )))
    );
    // a path that names another device, an unknown segment, or a
    // segment without its check prefix resolves to nothing
    assert_eq!(d.match_dev(b"dev_BB"), None);
    assert_eq!(d.match_dev(b"dev_AA/service9999"), None);
    assert_eq!(d.match_dev(b"dev_AA/other0004"), None);
    assert_eq!(d.match_dev(b"dev_AA/service0004/char0002"), None);
    assert_eq!(d.match_dev(b"dev_AA/service0004/char0001/desc0000/extra"), None);
}
