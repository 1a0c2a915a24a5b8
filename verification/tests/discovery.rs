use stark_link_core::device::{DeviceInfo, DeviceType, OsType};
use stark_link_core::discovery::{
    parse_device_type, parse_os, parse_service_info, service_properties, DiscoveryEvent,
    DiscoveryManager, IpAddress, ServiceEvent, ServiceRecord,
};

const PEER: u128 = 0x0123_4567_89ab_cdef_0123_4567_89ab_cdef;
const PEER_TEXT: &str = "01234567-89ab-cdef-0123-456789abcdef";

fn local() -> DeviceInfo {
    DeviceInfo::new(0x42, "my-box".to_string(), OsType::Windows, DeviceType::Laptop, Some(50))
}

fn record(fullname: &str, id: Option<&str>) -> ServiceRecord {
    ServiceRecord {
        fullname: fullname.to_string(),
        id: id.map(|s| s.to_string()),
        name: Some("phone".to_string()),
        os: Some("Android".to_string()),
        device_type: Some("Phone".to_string()),
        addresses: vec![IpAddress::V4(0xc0a8_0105)],
        port: 42424,
    }
}

#[test]
fn txt_values_parse() {
    assert_eq!(parse_os("Windows"), OsType::Windows);
    assert_eq!(parse_os("macOS"), OsType::MacOS);
    assert_eq!(parse_os("iOS"), OsType::IOS);
    assert_eq!(parse_os("Android"), OsType::Android);
    assert_eq!(parse_os("BeOS"), OsType::Linux);
    assert_eq!(parse_device_type("Tablet"), DeviceType::Tablet);
    assert_eq!(parse_device_type("Laptop"), DeviceType::Laptop);
    assert_eq!(parse_device_type("toaster"), DeviceType::Desktop);
}

#[test]
fn service_info_defaults_and_refusals() {
    let mut rec = record("x._starklink._tcp.local.", Some(PEER_TEXT));
    rec.name = None;
    rec.os = None;
    rec.device_type = None;
    let d = parse_service_info(&rec).unwrap();
    assert_eq!(d.info.id, PEER);
    assert_eq!(d.info.name, "Unknown");
    assert_eq!(d.info.os, OsType::Linux);
    assert_eq!(d.info.device_type, DeviceType::Desktop);
    assert_eq!(d.info.battery_level, None);
    assert_eq!(d.addresses, vec![IpAddress::V4(0xc0a8_0105)]);
    assert!(d.online);
    assert!(parse_service_info(&record("x", None)).is_none());
    assert!(parse_service_info(&record("x", Some("not-a-uuid"))).is_none());
}

#[test]
fn registered_properties_read_back() {
    let me = local();
    let props = service_properties(&me);
    assert_eq!(props[0], ("id".to_string(), "00000000-0000-0000-0000-000000000042".to_string()));
    assert_eq!(props[1], ("name".to_string(), "my-box".to_string()));
    assert_eq!(props[2], ("os".to_string(), "Windows".to_string()));
    assert_eq!(props[3], ("device_type".to_string(), "Laptop".to_string()));
    let rec = ServiceRecord {
        fullname: "elsewhere".to_string(),
        id: Some(props[0].1.clone()),
        name: Some(props[1].1.clone()),
        os: Some(props[2].1.clone()),
        device_type: Some(props[3].1.clone()),
        addresses: vec![],
        port: 1,
    };
    let d = parse_service_info(&rec).unwrap();
    assert_eq!(d.info.id, me.id);
    assert_eq!(d.info.name, me.name);
    assert_eq!(d.info.os, me.os);
    assert_eq!(d.info.device_type, me.device_type);
}

#[test]
fn manager_names() {
    let mgr = DiscoveryManager::new(&local());
    assert_eq!(mgr.instance_name(), "starklink-00000000-0000-0000-0000-000000000042");
    assert_eq!(mgr.service_hostname(), "starklink-00000000-0000-0000-0000-000000000042.local.");
    assert_eq!(
        mgr.service_fullname(),
        "starklink-00000000-0000-0000-0000-000000000042._starklink._tcp.local."
    );
}

#[test]
fn found_updated_lost() {
    let mut mgr = DiscoveryManager::new(&local());
    let full = format!("starklink-{PEER_TEXT}._starklink._tcp.local.");
    let ev = mgr.handle_service_event(ServiceEvent::Resolved(record(&full, Some(PEER_TEXT))));
    assert!(matches!(ev, Some(DiscoveryEvent::DeviceFound(ref d)) if d.info.id == PEER));
    let ev = mgr.handle_service_event(ServiceEvent::Resolved(record(&full, Some(PEER_TEXT))));
    assert!(matches!(ev, Some(DiscoveryEvent::DeviceUpdated(ref d)) if d.info.id == PEER));
    assert_eq!(mgr.devices().len(), 1);
    let ev = mgr.handle_service_event(ServiceEvent::Removed(full.clone()));
    assert!(matches!(ev, Some(DiscoveryEvent::DeviceLost(id)) if id == PEER));
    assert!(mgr.devices().is_empty());
    let kept = mgr.get_device(PEER).unwrap();
    assert!(!kept.online);
    assert_eq!(kept.info.name, "phone");
    assert!(mgr.handle_service_event(ServiceEvent::Removed("unknown".to_string())).is_none());
    assert!(mgr.handle_service_event(ServiceEvent::Other).is_none());
}

#[test]
fn own_service_and_unparseable_ignored() {
    let mut mgr = DiscoveryManager::new(&local());
    let own = "starklink-00000000-0000-0000-0000-000000000042._starklink._tcp.local.";
    assert!(mgr.handle_service_event(ServiceEvent::Resolved(record(own, Some(PEER_TEXT)))).is_none());
    assert!(mgr.handle_service_event(ServiceEvent::Resolved(record("other", None))).is_none());
    assert!(mgr.devices().is_empty());
    assert!(mgr.get_device(PEER).is_none());
}
