//! Device identification and metadata.
//!
//! Every node is described by a [`DeviceInfo`]: a stable UUID, a
//! human-readable name, the operating system, the form factor and an optional
//! battery level.

use vstd::prelude::*;
use vstd::arithmetic::power2::pow2;
use crate::ids::new_uuid;
use crate::text::{lemma_chars_differ, lemma_lengths_differ, own, str_eq};

verus! {

/// Physical form factor of a device.
#[derive(Debug, Clone, Copy, PartialEq, Eq, Hash, Structural)]
pub enum DeviceType {
    Desktop,
    Laptop,
    Phone,
    Tablet,
}

/// Operating system family.
#[derive(Debug, Clone, Copy, PartialEq, Eq, Hash, Structural)]
pub enum OsType {
    Windows,
    MacOS,
    Linux,
    Android,
    IOS,
}

/// The display name of a form factor.
pub open spec fn device_type_text(t: DeviceType) -> Seq<char> {
    match t {
        DeviceType::Desktop => "Desktop"@,
        DeviceType::Laptop => "Laptop"@,
        DeviceType::Phone => "Phone"@,
        DeviceType::Tablet => "Tablet"@,
    }
}

/// The display name of an operating system.
pub open spec fn os_text(os: OsType) -> Seq<char> {
    match os {
        OsType::Windows => "Windows"@,
        OsType::MacOS => "macOS"@,
        OsType::Linux => "Linux"@,
        OsType::Android => "Android"@,
        OsType::IOS => "iOS"@,
    }
}

impl DeviceType {
    /// The display name (`Desktop`, `Laptop`, `Phone`, `Tablet`).
    pub fn display_name(&self) -> (r: String)
        ensures
            r@ == device_type_text(*self),
    {
        match self {
            DeviceType::Desktop => own("Desktop"),
            DeviceType::Laptop => own("Laptop"),
            DeviceType::Phone => own("Phone"),
            DeviceType::Tablet => own("Tablet"),
        }
    }
}

impl OsType {
    /// The display name (`Windows`, `macOS`, `Linux`, `Android`, `iOS`).
    pub fn display_name(&self) -> (r: String)
        ensures
            r@ == os_text(*self),
    {
        match self {
            OsType::Windows => own("Windows"),
            OsType::MacOS => own("macOS"),
            OsType::Linux => own("Linux"),
            OsType::Android => own("Android"),
            OsType::IOS => own("iOS"),
        }
    }
}

/// The operating system family of a target, by Rust's `target_os` name
/// (`windows`, `macos`, `linux`, `android`, `ios`); any other target counts
/// as Linux.
pub open spec fn os_for_target(target_os: Seq<char>) -> OsType {
    if target_os == "windows"@ {
        OsType::Windows
    } else if target_os == "macos"@ {
        OsType::MacOS
    } else if target_os == "linux"@ {
        OsType::Linux
    } else if target_os == "android"@ {
        OsType::Android
    } else if target_os == "ios"@ {
        OsType::IOS
    } else {
        OsType::Linux
    }
}

/// The form factor guessed for a target: a phone on Android and iOS, a
/// desktop anywhere else.
pub open spec fn device_type_for_target(target_os: Seq<char>) -> DeviceType {
    if target_os == "android"@ || target_os == "ios"@ {
        DeviceType::Phone
    } else {
        DeviceType::Desktop
    }
}

/// Target law: each of the targets `windows`, `macos`, `linux`, `android`
/// and `ios` is the system of that name, and any other target counts as
/// Linux; Android and iOS are phones, every other target a desktop.
pub proof fn lemma_targets(t: Seq<char>)
    ensures
        os_for_target("windows"@) == OsType::Windows,
        os_for_target("macos"@) == OsType::MacOS,
        os_for_target("linux"@) == OsType::Linux,
        os_for_target("android"@) == OsType::Android,
        os_for_target("ios"@) == OsType::IOS,
        t != "windows"@ && t != "macos"@ && t != "linux"@ && t != "android"@ && t != "ios"@
            ==> os_for_target(t) == OsType::Linux,
        device_type_for_target("android"@) == DeviceType::Phone,
        device_type_for_target("ios"@) == DeviceType::Phone,
        t != "android"@ && t != "ios"@ ==> device_type_for_target(t) == DeviceType::Desktop,
{
    reveal_strlit("windows");
    reveal_strlit("macos");
    reveal_strlit("linux");
    reveal_strlit("android");
    reveal_strlit("ios");
    lemma_lengths_differ("windows"@, "macos"@);
    lemma_lengths_differ("windows"@, "linux"@);
    lemma_chars_differ("windows"@, "android"@, 0);
    lemma_lengths_differ("windows"@, "ios"@);
    lemma_chars_differ("macos"@, "linux"@, 0);
    lemma_lengths_differ("macos"@, "android"@);
    lemma_lengths_differ("macos"@, "ios"@);
    lemma_lengths_differ("linux"@, "android"@);
    lemma_lengths_differ("linux"@, "ios"@);
    lemma_lengths_differ("android"@, "ios"@);
}

/// Detect the operating system family from the build target's `target_os`.
pub fn detect_os(target_os: &str) -> (r: OsType)
    ensures
        r == os_for_target(target_os@),
{
    if str_eq(target_os, "windows") {
        OsType::Windows
    } else if str_eq(target_os, "macos") {
        OsType::MacOS
    } else if str_eq(target_os, "linux") {
        // Could be desktop Linux or Android; default to Linux.
        OsType::Linux
    } else if str_eq(target_os, "android") {
        OsType::Android
    } else if str_eq(target_os, "ios") {
        OsType::IOS
    } else {
        OsType::Linux
    }
}

/// Best-effort guess of the form factor from the build target's `target_os`.
pub fn guess_device_type(target_os: &str) -> (r: DeviceType)
    ensures
        r == device_type_for_target(target_os@),
{
    if str_eq(target_os, "android") {
        DeviceType::Phone
    } else if str_eq(target_os, "ios") {
        DeviceType::Phone
    } else {
        DeviceType::Desktop
    }
}

/// Metadata describing a single device.
#[derive(Debug, Clone)]
pub struct DeviceInfo {
    /// Persistent unique identifier (UUID v4).
    pub id: u128,
    /// Human-readable device name (usually the hostname).
    pub name: String,
    /// Operating system running on the device.
    pub os: OsType,
    /// Form factor.
    pub device_type: DeviceType,
    /// Battery percentage (0..=100), or `None` for desktops without batteries.
    pub battery_level: Option<u8>,
}

/// The name of this machine (`hostname::get`, converted lossily to UTF-8), or
/// `None` where the system does not give one.  Nothing is known of the text.
#[verifier::external_body]
fn host_name() -> (r: Option<String>) {
    match hostname::get() {
        Ok(h) => Some(h.to_string_lossy().into_owned()),
        Err(_) => None,
    }
}

impl DeviceInfo {
    /// Create a new [`DeviceInfo`] with explicit values.
    pub fn new(
        id: u128,
        name: String,
        os: OsType,
        device_type: DeviceType,
        battery_level: Option<u8>,
    ) -> (r: Self)
        ensures
            r.id == id,
            r.name == name,
            r.os == os,
            r.device_type == device_type,
            r.battery_level == battery_level,
    {
        DeviceInfo { id, name, os, device_type, battery_level }
    }

    /// A field-by-field copy.
    pub fn duplicate(&self) -> (r: Self)
        ensures
            r == *self,
    {
        DeviceInfo {
            id: self.id,
            name: self.name.clone(),
            os: self.os,
            device_type: self.device_type,
            battery_level: self.battery_level,
        }
    }

    /// The description of the running device, given its fresh identifier, the
    /// machine's host name (if any) and the build target's `target_os`.  The
    /// name falls back to `unknown`; no battery level is reported.
    pub fn local_with(id: u128, host: Option<String>, target_os: &str) -> (r: Self)
        ensures
            r.id == id,
            r.name@ == (match host {
                Some(h) => h@,
                None => "unknown"@,
            }),
            r.os == os_for_target(target_os@),
            r.device_type == device_type_for_target(target_os@),
            r.battery_level is None,
    {
        let name = match host {
            Some(h) => h,
            None => own("unknown"),
        };
        DeviceInfo {
            id,
            name,
            os: detect_os(target_os),
            device_type: guess_device_type(target_os),
            battery_level: None,
        }
    }

    /// Detect information about the running device.  The UUID is freshly
    /// generated (version 4) each time; callers persist it and reuse it
    /// across restarts.
    pub fn local(target_os: &str) -> (r: Self)
        ensures
            ((r.id as int) / (pow2(76) as int)) % 16 == 4,
            r.os == os_for_target(target_os@),
            r.device_type == device_type_for_target(target_os@),
            r.battery_level is None,
    {
        let id = new_uuid();
        let host = host_name();
        Self::local_with(id, host, target_os)
    }
}

} // verus!
