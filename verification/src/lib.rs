//! Core library of a peer-to-peer cross-device link: device identity,
//! cryptography, the wire protocol and its framing, connection, discovery,
//! file-transfer and clipboard state, and the logic of the desktop
//! application's commands.

pub mod text;
pub mod ids;
pub mod error;
pub mod device;
pub mod crypto;
pub mod protocol;
pub mod clipboard;
pub mod config;
pub mod transfer;
pub mod connection;
pub mod discovery;
pub mod desktop;

use vstd::prelude::*;
use crate::clipboard::ClipboardManager;
use crate::config::Config;
use crate::connection::ConnectionManager;
use crate::crypto::{fingerprint_text, KeyPair, x25519_public_of};
use crate::device::{device_type_for_target, os_for_target, DeviceInfo};
use crate::discovery::{instance_name_for, DiscoveryManager};
use crate::transfer::TransferManager;

verus! {

/// A node: its identity and every subsystem's state, wired together.
pub struct StarkLink {
    /// Cryptographic identity of this device.
    pub keypair: KeyPair,
    /// Local device metadata.
    pub device: DeviceInfo,
    /// Runtime configuration.
    pub config: Config,
    /// Known devices on the network.
    pub discovery: DiscoveryManager,
    /// Peer connections.
    pub connection: ConnectionManager,
    /// File transfers.
    pub transfer: TransferManager,
    /// Clipboard history.
    pub clipboard: ClipboardManager,
}

impl StarkLink {
    /// Bring up a node from its configuration on a build target: the device
    /// takes the configured id and name, a fresh key pair is generated, and
    /// every subsystem starts empty, configured alike.
    pub fn new(config: Config, target_os: &str) -> (r: Self)
        ensures
            r.config == config,
            r.device.id == config.device_id,
            r.device.name == config.device_name,
            r.device.os == os_for_target(target_os@),
            r.device.device_type == device_type_for_target(target_os@),
            r.device.battery_level is None,
            r.keypair.public_bytes() == x25519_public_of(r.keypair.secret_bytes()),
            r.discovery.table().len() == 0,
            r.discovery.instance() == instance_name_for(config.device_id),
            r.connection.table().len() == 0,
            r.connection.local() == r.device,
            r.connection.settings() == config,
            r.transfer.table().len() == 0,
            r.transfer.settings() == config,
            r.clipboard.entries().len() == 0,
            r.clipboard.capacity() == config.max_clipboard_history,
            r.clipboard.local_id() == config.device_id,
    {
        let mut device = DeviceInfo::local(target_os);
        device.id = config.device_id;
        device.name = config.device_name.clone();
        let keypair = KeyPair::generate();
        let discovery = DiscoveryManager::new(&device);
        let connection = ConnectionManager::new(device.duplicate(), config.duplicate());
        let transfer = TransferManager::new(config.duplicate());
        let clipboard = ClipboardManager::new(device.id, config.max_clipboard_history);
        StarkLink { keypair, device, config, discovery, connection, transfer, clipboard }
    }

    /// The fingerprint of this device's public key.
    pub fn fingerprint(&self) -> (r: String)
        ensures
            r@ == fingerprint_text(self.keypair.public_bytes()),
    {
        self.keypair.fingerprint()
    }

    /// This device's UUID.
    pub fn device_id(&self) -> (r: u128)
        ensures
            r == self.device.id,
    {
        self.device.id
    }
}

} // verus!
