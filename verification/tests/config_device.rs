use stark_link_core::config::{
    dirs_home, dirs_next_download_dir, join_path, Config, DEFAULT_CHUNK_SIZE, DEFAULT_MAX_FILE_SIZE,
    DEFAULT_PORT,
};
use stark_link_core::device::{detect_os, guess_device_type, DeviceInfo, DeviceType, OsType};

#[test]
fn defaults() {
    let c = Config::defaults_with(9, None, Some("/home/ann".to_string()));
    assert_eq!(c.device_id, 9);
    assert_eq!(c.device_name, "StarkLink Device");
    assert_eq!(c.port, 42424);
    assert_eq!(DEFAULT_PORT, 42424);
    assert_eq!(c.chunk_size, 5 * 1024 * 1024);
    assert_eq!(DEFAULT_CHUNK_SIZE, 5 * 1024 * 1024);
    assert_eq!(stark_link_core::transfer::DEFAULT_CHUNK_SIZE, DEFAULT_CHUNK_SIZE);
    assert_eq!(c.max_file_size, 10 * 1024 * 1024 * 1024);
    assert_eq!(DEFAULT_MAX_FILE_SIZE, 10 * 1024 * 1024 * 1024);
    assert_eq!(c.heartbeat_interval_secs, 30);
    assert_eq!(c.max_clipboard_history, 50);
    assert_eq!(c.max_concurrent_transfers, 5);
    assert!(c.compression_enabled);
    assert!(!c.auto_accept_known);
    assert_eq!(c.download_dir, "/home/ann/Downloads/StarkLink");
    let named = Config::defaults_with(9, Some("box".to_string()), None);
    assert_eq!(named.device_name, "box");
    assert_eq!(named.download_dir, "StarkLink-Downloads");
}

#[test]
fn path_joining() {
    assert_eq!(join_path("/a", "b"), "/a/b");
    assert_eq!(join_path("/a/", "b"), "/a/b");
    assert_eq!(join_path("", "b"), "b");
    assert_eq!(join_path("/a", "/etc"), "/etc");
    assert_eq!(dirs_next_download_dir(Some("/root/".to_string())), "/root/Downloads/StarkLink");
    assert_eq!(dirs_next_download_dir(None), "StarkLink-Downloads");
}

#[test]
fn home_lookup() {
    assert_eq!(dirs_home(Some("/h".to_string()), Some("C:\\u".to_string())), Some("/h".to_string()));
    assert_eq!(dirs_home(None, Some("C:\\u".to_string())), Some("C:\\u".to_string()));
    assert_eq!(dirs_home(None, None), None);
}

#[test]
fn default_config_paths() {
    let s = |v: &str| Some(v.to_string());
    assert_eq!(
        Config::default_path("linux", None, None, s("/home/ann")),
        "/home/ann/.config/starklink/config.json"
    );
    assert_eq!(
        Config::default_path("linux", None, s("/xdg"), s("/home/ann")),
        "/xdg/starklink/config.json"
    );
    assert_eq!(Config::default_path("linux", None, None, None), "./starklink/config.json");
    assert_eq!(
        Config::default_path("macos", None, s("/xdg"), s("/Users/ann")),
        "/Users/ann/Library/Application Support/StarkLink/config.json"
    );
    assert_eq!(
        Config::default_path("windows", s("/appdata"), None, s("/home")),
        "/appdata/StarkLink/config.json"
    );
    assert_eq!(Config::default_path("windows", None, None, None), "./StarkLink/config.json");
}

#[test]
fn os_and_form_factor_by_target() {
    assert_eq!(detect_os("windows"), OsType::Windows);
    assert_eq!(detect_os("macos"), OsType::MacOS);
    assert_eq!(detect_os("linux"), OsType::Linux);
    assert_eq!(detect_os("android"), OsType::Android);
    assert_eq!(detect_os("ios"), OsType::IOS);
    assert_eq!(detect_os("freebsd"), OsType::Linux);
    assert_eq!(guess_device_type("android"), DeviceType::Phone);
    assert_eq!(guess_device_type("ios"), DeviceType::Phone);
    assert_eq!(guess_device_type("macos"), DeviceType::Desktop);
}

#[test]
fn display_names() {
    assert_eq!(OsType::MacOS.display_name(), "macOS");
    assert_eq!(OsType::IOS.display_name(), "iOS");
    assert_eq!(OsType::Windows.display_name(), "Windows");
    assert_eq!(DeviceType::Tablet.display_name(), "Tablet");
    assert_eq!(DeviceType::Desktop.display_name(), "Desktop");
}

#[test]
fn local_device_description() {
    let d = DeviceInfo::local_with(5, None, "ios");
    assert_eq!(d.id, 5);
    assert_eq!(d.name, "unknown");
    assert_eq!(d.os, OsType::IOS);
    assert_eq!(d.device_type, DeviceType::Phone);
    assert_eq!(d.battery_level, None);
    let e = DeviceInfo::local_with(6, Some("host".to_string()), "linux");
    assert_eq!(e.name, "host");
    let f = DeviceInfo::local("windows");
    assert_eq!(f.os, OsType::Windows);
    assert_eq!(f.device_type, DeviceType::Desktop);
    let g = DeviceInfo::local("windows");
    assert_ne!(f.id, g.id);
}
