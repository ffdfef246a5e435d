use lantransfer::device::{Device, DeviceManager};

fn dev(id: &str, name: &str) -> Device {
    Device {
        id: id.to_string(),
        name: name.to_string(),
        ip: "192.168.1.10".to_string(),
        device_type: "desktop".to_string(),
        is_online: true,
    }
}

#[test]
fn current_device_is_listed_first() {
    let mut m = DeviceManager::new(dev("self", "me"));
    m.add_device(dev("a", "alpha"));
    m.add_device(dev("b", "beta"));
    let ids: Vec<String> = m.get_devices().into_iter().map(|d| d.id).collect();
    assert_eq!(ids, vec!["self", "a", "b"]);
    assert_eq!(m.get_current_device().id, "self");
}

#[test]
fn add_device_replaces_same_id_in_place() {
    let mut m = DeviceManager::new(dev("self", "me"));
    m.add_device(dev("a", "alpha"));
    m.add_device(dev("b", "beta"));
    m.add_device(dev("a", "alpha-2"));
    let names: Vec<String> = m.get_devices().into_iter().map(|d| d.name).collect();
    assert_eq!(names, vec!["me", "alpha-2", "beta"]);
}

#[test]
fn remove_device_keeps_order_and_ignores_unknown() {
    let mut m = DeviceManager::new(dev("self", "me"));
    m.add_device(dev("a", "alpha"));
    m.add_device(dev("b", "beta"));
    m.add_device(dev("c", "gamma"));
    m.remove_device("b");
    m.remove_device("zzz");
    let ids: Vec<String> = m.get_devices().into_iter().map(|d| d.id).collect();
    assert_eq!(ids, vec!["self", "a", "c"]);
}

#[test]
fn update_device_status_sets_flag_of_known_device_only() {
    let mut m = DeviceManager::new(dev("self", "me"));
    m.add_device(dev("a", "alpha"));
    m.update_device_status("a", false);
    m.update_device_status("nobody", false);
    assert!(!m.get_device_by_id("a").unwrap().is_online);
    assert!(m.get_current_device().is_online);
    assert_eq!(m.get_devices().len(), 2);
}

#[test]
fn lookup_checks_self_first() {
    let mut m = DeviceManager::new(dev("self", "me"));
    m.add_device(dev("self", "impostor"));
    m.add_device(dev("a", "alpha"));
    assert_eq!(m.get_device_by_id("self").unwrap().name, "me");
    assert_eq!(m.get_device_by_id("a").unwrap().name, "alpha");
    assert!(m.get_device_by_id("missing").is_none());
}

#[test]
fn device_type_by_operating_system() {
    assert_eq!(DeviceManager::detect_device_type("linux"), "desktop");
    assert_eq!(DeviceManager::detect_device_type("windows"), "desktop");
    assert_eq!(DeviceManager::detect_device_type("macos"), "desktop");
    assert_eq!(DeviceManager::detect_device_type("android"), "mobile");
    assert_eq!(DeviceManager::detect_device_type("ios"), "mobile");
    assert_eq!(DeviceManager::detect_device_type("freebsd"), "unknown");
}

#[test]
fn current_device_falls_back_when_host_facts_are_missing() {
    let d = DeviceManager::create_current_device("id-1".to_string(), None, None, "ios");
    assert_eq!(d.id, "id-1");
    assert_eq!(d.name, "Unknown Device");
    assert_eq!(d.ip, "127.0.0.1");
    assert_eq!(d.device_type, "mobile");
    assert!(d.is_online);
    let e = DeviceManager::create_current_device(
        "id-2".to_string(),
        Some("box".to_string()),
        Some("10.0.0.5".to_string()),
        "linux",
    );
    assert_eq!(e.name, "box");
    assert_eq!(e.ip, "10.0.0.5");
    assert_eq!(e.device_type, "desktop");
}

#[test]
fn snapshot_equals_original() {
    let d = dev("x", "y");
    let s = d.snapshot();
    assert_eq!(s.id, d.id);
    assert_eq!(s.name, d.name);
    assert_eq!(s.ip, d.ip);
    assert_eq!(s.device_type, d.device_type);
    assert_eq!(s.is_online, d.is_online);
}
