//! Runtime configuration and the paths it names.
//!
//! Paths are held as strings and joined by the POSIX rules of
//! `PathBuf::push`: an absolute component replaces the path, and a `/` is
//! inserted unless the path is empty or already ends in one.

use vstd::prelude::*;
use crate::text::{chars_of, concat2, concat3, own, str_eq};

verus! {

/// Default chunk size for file transfers (5 MiB).
pub const DEFAULT_CHUNK_SIZE: usize = 5_242_880;

/// Default largest file that may be sent (10 GiB).
pub const DEFAULT_MAX_FILE_SIZE: u64 = 10_737_418_240;

/// Default WebSocket port.
pub const DEFAULT_PORT: u16 = 42424;

/// All configurable parameters of a node.
#[derive(Debug, Clone)]
pub struct Config {
    /// Persistent device UUID (generated once, then reused).
    pub device_id: u128,
    /// Human-readable device name shown to peers.
    pub device_name: String,
    /// TCP port used by the WebSocket server.
    pub port: u16,
    /// Size of each file-transfer chunk in bytes.
    pub chunk_size: usize,
    /// Maximum individual file size in bytes.
    pub max_file_size: u64,
    /// Heartbeat interval in seconds.
    pub heartbeat_interval_secs: u64,
    /// Maximum clipboard history entries to keep.
    pub max_clipboard_history: usize,
    /// Maximum concurrent file transfers.
    pub max_concurrent_transfers: usize,
    /// Whether to compress chunks with LZ4 before sending.
    pub compression_enabled: bool,
    /// Directory where received files are saved.
    pub download_dir: String,
    /// Whether to automatically accept pair requests from known devices.
    pub auto_accept_known: bool,
}

/// `base` joined with `comp` as `PathBuf::push` does it on POSIX systems.
pub open spec fn join_spec(base: Seq<char>, comp: Seq<char>) -> Seq<char> {
    if comp.len() > 0 && comp[0] == '/' {
        comp
    } else if base.len() == 0 || base.last() == '/' {
        base + comp
    } else {
        base + seq!['/'] + comp
    }
}

/// Join a path component onto a path.
pub fn join_path(base: &str, comp: &str) -> (r: String)
    ensures
        r@ == join_spec(base@, comp@),
{
    let b = chars_of(base);
    let c = chars_of(comp);
    if c.len() > 0 && c[0] == '/' {
        own(comp)
    } else if b.len() == 0 || b[b.len() - 1] == '/' {
        concat2(base, comp)
    } else {
        proof {
            reveal_strlit("/");
        }
        assert("/"@ =~= seq!['/']);
        concat3(base, "/", comp)
    }
}

/// The user's home directory: `HOME`, else `USERPROFILE`.
pub open spec fn home_dir(home: Option<String>, userprofile: Option<String>) -> Option<String> {
    match home {
        Some(h) => Some(h),
        None => userprofile,
    }
}

/// The user's home directory, from the values of `HOME` and `USERPROFILE`
/// (each `None` when unset or not Unicode).
pub fn dirs_home(home: Option<String>, userprofile: Option<String>) -> (r: Option<String>)
    ensures
        r == home_dir(home, userprofile),
{
    match home {
        Some(h) => Some(h),
        None => userprofile,
    }
}

/// `~/Downloads/StarkLink`, or `StarkLink-Downloads` without a home.
pub open spec fn download_dir_for(home: Option<String>) -> Seq<char> {
    match home {
        Some(h) => join_spec(join_spec(h@, "Downloads"@), "StarkLink"@),
        None => "StarkLink-Downloads"@,
    }
}

/// The default directory for received files, given the home directory.
pub fn dirs_next_download_dir(home: Option<String>) -> (r: String)
    ensures
        r@ == download_dir_for(home),
{
    match home {
        Some(h) => {
            let d = join_path(h.as_str(), "Downloads");
            join_path(d.as_str(), "StarkLink")
        },
        None => own("StarkLink-Downloads"),
    }
}

/// The directory that holds the configuration directory on a target.
pub open spec fn config_base_for(
    target_os: Seq<char>,
    appdata: Option<String>,
    xdg_config_home: Option<String>,
    home: Option<String>,
) -> Seq<char> {
    if target_os == "windows"@ {
        match appdata {
            Some(a) => a@,
            None => "."@,
        }
    } else if target_os == "macos"@ {
        match home {
            Some(h) => join_spec(h@, "Library/Application Support"@),
            None => "."@,
        }
    } else {
        match xdg_config_home {
            Some(x) => x@,
            None => match home {
                Some(h) => join_spec(h@, ".config"@),
                None => "."@,
            },
        }
    }
}

/// The name of the configuration directory on a target: `StarkLink` on
/// Windows and macOS, `starklink` elsewhere.
pub open spec fn config_dir_name(target_os: Seq<char>) -> Seq<char> {
    if target_os == "windows"@ || target_os == "macos"@ {
        "StarkLink"@
    } else {
        "starklink"@
    }
}

/// The default configuration-file path on a target:
/// `%APPDATA%/StarkLink/config.json` on Windows,
/// `~/Library/Application Support/StarkLink/config.json` on macOS and
/// `$XDG_CONFIG_HOME` (else `~/.config`) `/starklink/config.json` elsewhere;
/// `.` stands in for a missing base.
pub open spec fn default_path_for(
    target_os: Seq<char>,
    appdata: Option<String>,
    xdg_config_home: Option<String>,
    home: Option<String>,
) -> Seq<char> {
    join_spec(
        join_spec(
            config_base_for(target_os, appdata, xdg_config_home, home),
            config_dir_name(target_os),
        ),
        "config.json"@,
    )
}

impl Config {
    /// The default configuration, given the fresh device id, the machine's
    /// host name (if any) and the user's home directory (if any).
    pub fn defaults_with(device_id: u128, host: Option<String>, home: Option<String>) -> (r: Self)
        ensures
            r.device_id == device_id,
            r.device_name@ == (match host {
                Some(h) => h@,
                None => "StarkLink Device"@,
            }),
            r.port == DEFAULT_PORT,
            r.chunk_size == DEFAULT_CHUNK_SIZE,
            r.max_file_size == DEFAULT_MAX_FILE_SIZE,
            r.heartbeat_interval_secs == 30,
            r.max_clipboard_history == 50,
            r.max_concurrent_transfers == 5,
            r.compression_enabled,
            r.download_dir@ == download_dir_for(home),
            !r.auto_accept_known,
    {
        let download_dir = dirs_next_download_dir(home);
        let device_name = match host {
            Some(h) => h,
            None => own("StarkLink Device"),
        };
        Config {
            device_id,
            device_name,
            port: DEFAULT_PORT,
            chunk_size: DEFAULT_CHUNK_SIZE,
            max_file_size: DEFAULT_MAX_FILE_SIZE,
            heartbeat_interval_secs: 30,
            max_clipboard_history: 50,
            max_concurrent_transfers: 5,
            compression_enabled: true,
            download_dir,
            auto_accept_known: false,
        }
    }

    /// The default configuration-file path, given the build target's
    /// `target_os` and the values of `APPDATA`, `XDG_CONFIG_HOME` and the home
    /// directory.
    pub fn default_path(
        target_os: &str,
        appdata: Option<String>,
        xdg_config_home: Option<String>,
        home: Option<String>,
    ) -> (r: String)
        ensures
            r@ == default_path_for(target_os@, appdata, xdg_config_home, home),
    {
        let (base, dir_name) = if str_eq(target_os, "windows") {
            let base = match appdata {
                Some(a) => a,
                None => own("."),
            };
            (base, "StarkLink")
        } else if str_eq(target_os, "macos") {
            let base = match home {
                Some(h) => join_path(h.as_str(), "Library/Application Support"),
                None => own("."),
            };
            (base, "StarkLink")
        } else {
            let base = match xdg_config_home {
                Some(x) => x,
                None => match home {
                    Some(h) => join_path(h.as_str(), ".config"),
                    None => own("."),
                },
            };
            (base, "starklink")
        };
        let dir = join_path(base.as_str(), dir_name);
        join_path(dir.as_str(), "config.json")
    }

    /// A field-by-field copy.
    pub fn duplicate(&self) -> (r: Self)
        ensures
            r == *self,
    {
        Config {
            device_id: self.device_id,
            device_name: self.device_name.clone(),
            port: self.port,
            chunk_size: self.chunk_size,
            max_file_size: self.max_file_size,
            heartbeat_interval_secs: self.heartbeat_interval_secs,
            max_clipboard_history: self.max_clipboard_history,
            max_concurrent_transfers: self.max_concurrent_transfers,
            compression_enabled: self.compression_enabled,
            download_dir: self.download_dir.clone(),
            auto_accept_known: self.auto_accept_known,
        }
    }
}

} // verus!
