//! Device discovery over mDNS.
//!
//! A node registers itself as an instance of the `_starklink._tcp.local.`
//! service, advertising its id, name, operating system and form factor in
//! TXT records, and keeps the devices it resolves on the network.  The mDNS
//! daemon belongs to the caller, which hands over what it browses as
//! [`ServiceEvent`]s, with each resolved service's TXT values already read.

use vstd::prelude::*;
use std::collections::HashMap;
use crate::device::{
    device_type_text, os_text, DeviceInfo, DeviceType, OsType,
};
use crate::ids::{uuid_parse, uuid_parsed, uuid_text, uuid_to_string};
use crate::text::{
    concat2, concat3, contains_str, lemma_chars_differ, lemma_lengths_differ, own, seq_contains_sub,
    str_eq,
};

verus! {

broadcast use vstd::std_specs::hash::group_hash_axioms;

use vstd::std_specs::hash::spec_hash_map_iter;
use vstd::std_specs::iter::IteratorSpec;

/// The mDNS service type every node registers.
pub open spec fn service_type() -> Seq<char> {
    "_starklink._tcp.local."@
}

/// An IP address, by its numeric value (as `Ipv4Addr::to_bits` and
/// `Ipv6Addr::to_bits` give it).
#[derive(Debug, Clone, Copy, PartialEq, Eq, Structural)]
pub enum IpAddress {
    V4(u32),
    V6(u128),
}

/// A peer found on the local network.
#[derive(Debug, Clone)]
pub struct DiscoveredDevice {
    /// Device metadata advertised in TXT records.
    pub info: DeviceInfo,
    /// Addresses where the peer can be reached.
    pub addresses: Vec<IpAddress>,
    /// WebSocket port.
    pub port: u16,
    /// Whether the device is currently reachable.
    pub online: bool,
}

impl DiscoveredDevice {
    /// A field-by-field copy.
    pub fn duplicate(&self) -> (r: Self)
        ensures
            r.info == self.info,
            r.addresses@ == self.addresses@,
            r.port == self.port,
            r.online == self.online,
    {
        let addresses = self.addresses.clone();
        assert(addresses@ =~= self.addresses@);
        DiscoveredDevice { info: self.info.duplicate(), addresses, port: self.port, online: self.online }
    }
}

/// Events of the discovery subsystem.
#[derive(Debug, Clone)]
pub enum DiscoveryEvent {
    /// A new device appeared on the network.
    DeviceFound(DiscoveredDevice),
    /// A known device went offline.
    DeviceLost(u128),
    /// A known device updated its metadata.
    DeviceUpdated(DiscoveredDevice),
}

/// A resolved service, as the daemon reports it: its full name, the values
/// of its `id`, `name`, `os` and `device_type` TXT properties (`None` where
/// a property is absent), its addresses and its port.
#[derive(Debug, Clone)]
pub struct ServiceRecord {
    pub fullname: String,
    pub id: Option<String>,
    pub name: Option<String>,
    pub os: Option<String>,
    pub device_type: Option<String>,
    pub addresses: Vec<IpAddress>,
    pub port: u16,
}

/// What the daemon reports while browsing.
#[derive(Debug, Clone)]
pub enum ServiceEvent {
    /// A service was resolved.
    Resolved(ServiceRecord),
    /// The service of that full name went away.
    Removed(String),
    /// Anything else (search started or stopped, …).
    Other,
}

/// The operating system a TXT value names; unknown names count as Linux.
pub open spec fn os_named(s: Seq<char>) -> OsType {
    if s == "Windows"@ {
        OsType::Windows
    } else if s == "macOS"@ {
        OsType::MacOS
    } else if s == "Linux"@ {
        OsType::Linux
    } else if s == "Android"@ {
        OsType::Android
    } else if s == "iOS"@ {
        OsType::IOS
    } else {
        OsType::Linux
    }
}

/// The form factor a TXT value names; unknown names count as desktop.
pub open spec fn device_type_named(s: Seq<char>) -> DeviceType {
    if s == "Desktop"@ {
        DeviceType::Desktop
    } else if s == "Laptop"@ {
        DeviceType::Laptop
    } else if s == "Phone"@ {
        DeviceType::Phone
    } else if s == "Tablet"@ {
        DeviceType::Tablet
    } else {
        DeviceType::Desktop
    }
}

/// Parse an operating-system TXT value.
pub fn parse_os(s: &str) -> (r: OsType)
    ensures
        r == os_named(s@),
{
    if str_eq(s, "Windows") {
        OsType::Windows
    } else if str_eq(s, "macOS") {
        OsType::MacOS
    } else if str_eq(s, "Linux") {
        OsType::Linux
    } else if str_eq(s, "Android") {
        OsType::Android
    } else if str_eq(s, "iOS") {
        OsType::IOS
    } else {
        OsType::Linux
    }
}

/// Parse a form-factor TXT value.
pub fn parse_device_type(s: &str) -> (r: DeviceType)
    ensures
        r == device_type_named(s@),
{
    if str_eq(s, "Desktop") {
        DeviceType::Desktop
    } else if str_eq(s, "Laptop") {
        DeviceType::Laptop
    } else if str_eq(s, "Phone") {
        DeviceType::Phone
    } else if str_eq(s, "Tablet") {
        DeviceType::Tablet
    } else {
        DeviceType::Desktop
    }
}

/// The device a resolved service describes: none without a parseable `id`;
/// the name defaults to `Unknown`, the system to Linux and the form factor
/// to desktop; no battery level; online.
pub open spec fn device_described(rec: ServiceRecord) -> Option<(u128, Seq<char>, OsType, DeviceType)> {
    match rec.id {
        None => None,
        Some(id_text) => match uuid_parsed(id_text@) {
            None => None,
            Some(id) => Some(
                (
                    id,
                    match rec.name {
                        Some(n) => n@,
                        None => "Unknown"@,
                    },
                    match rec.os {
                        Some(o) => os_named(o@),
                        None => OsType::Linux,
                    },
                    match rec.device_type {
                        Some(d) => device_type_named(d@),
                        None => DeviceType::Desktop,
                    },
                ),
            ),
        },
    }
}

/// Whether `dev` is what `rec` describes.
pub open spec fn describes(rec: ServiceRecord, dev: DiscoveredDevice) -> bool {
    match device_described(rec) {
        Some((id, name, os, dt)) => {
            &&& dev.info.id == id
            &&& dev.info.name@ == name
            &&& dev.info.os == os
            &&& dev.info.device_type == dt
            &&& dev.info.battery_level is None
            &&& dev.addresses@ == rec.addresses@
            &&& dev.port == rec.port
            &&& dev.online
        },
        None => false,
    }
}

/// Read a resolved service's TXT values into a [`DiscoveredDevice`].
pub fn parse_service_info(rec: &ServiceRecord) -> (r: Option<DiscoveredDevice>)
    ensures
        r is Some <==> device_described(*rec) is Some,
        r matches Some(dev) ==> describes(*rec, dev),
{
    let id = match &rec.id {
        Some(t) => match uuid_parse(t.as_str()) {
            Some(u) => u,
            None => {
                return None;
            },
        },
        None => {
            return None;
        },
    };
    let name = match &rec.name {
        Some(n) => n.clone(),
        None => own("Unknown"),
    };
    let os = match &rec.os {
        Some(o) => parse_os(o.as_str()),
        None => OsType::Linux,
    };
    let device_type = match &rec.device_type {
        Some(d) => parse_device_type(d.as_str()),
        None => DeviceType::Desktop,
    };
    let addresses = rec.addresses.clone();
    assert(addresses@ =~= rec.addresses@);
    Some(
        DiscoveredDevice {
            info: DeviceInfo::new(id, name, os, device_type, None),
            addresses,
            port: rec.port,
            online: true,
        },
    )
}

/// The display names of systems and form factors read back as what they
/// name.
pub proof fn lemma_display_names_parse_back(os: OsType, dt: DeviceType)
    ensures
        os_named(os_text(os)) == os,
        device_type_named(device_type_text(dt)) == dt,
{
    reveal_strlit("Windows");
    reveal_strlit("macOS");
    reveal_strlit("Linux");
    reveal_strlit("Android");
    reveal_strlit("iOS");
    reveal_strlit("Desktop");
    reveal_strlit("Laptop");
    reveal_strlit("Phone");
    reveal_strlit("Tablet");
    assert("Windows"@[0] != "Android"@[0]);
    assert("macOS"@[0] != "Linux"@[0]);
    assert("Laptop"@[0] != "Tablet"@[0]);
    assert("Windows"@ != "macOS"@);
    assert("Windows"@ != "Linux"@);
    assert("Windows"@ != "Android"@);
    assert("Windows"@ != "iOS"@);
    assert("macOS"@ != "Linux"@);
    assert("macOS"@ != "Android"@);
    assert("macOS"@ != "iOS"@);
    assert("Linux"@ != "Android"@);
    assert("Linux"@ != "iOS"@);
    assert("Android"@ != "iOS"@);
    assert("Desktop"@ != "Laptop"@);
    assert("Desktop"@.len() != "Phone"@.len());
    assert("Desktop"@ != "Phone"@);
    assert("Desktop"@ != "Tablet"@);
    assert("Laptop"@ != "Phone"@);
    assert("Laptop"@ != "Tablet"@);
    assert("Phone"@ != "Tablet"@);
}

/// TXT-value law: each system and form-factor name is read as the value
/// of that name; any other system name counts as Linux and any other
/// form-factor name as a desktop.
pub proof fn lemma_txt_names(v: Seq<char>)
    ensures
        os_named("Windows"@) == OsType::Windows,
        os_named("macOS"@) == OsType::MacOS,
        os_named("Linux"@) == OsType::Linux,
        os_named("Android"@) == OsType::Android,
        os_named("iOS"@) == OsType::IOS,
        v != "Windows"@ && v != "macOS"@ && v != "Linux"@ && v != "Android"@ && v != "iOS"@
            ==> os_named(v) == OsType::Linux,
        device_type_named("Desktop"@) == DeviceType::Desktop,
        device_type_named("Laptop"@) == DeviceType::Laptop,
        device_type_named("Phone"@) == DeviceType::Phone,
        device_type_named("Tablet"@) == DeviceType::Tablet,
        v != "Desktop"@ && v != "Laptop"@ && v != "Phone"@ && v != "Tablet"@ ==> device_type_named(v)
            == DeviceType::Desktop,
{
    reveal_strlit("Windows");
    reveal_strlit("macOS");
    reveal_strlit("Linux");
    reveal_strlit("Android");
    reveal_strlit("iOS");
    reveal_strlit("Desktop");
    reveal_strlit("Laptop");
    reveal_strlit("Phone");
    reveal_strlit("Tablet");
    lemma_lengths_differ("Windows"@, "macOS"@);
    lemma_lengths_differ("Windows"@, "Linux"@);
    lemma_chars_differ("Windows"@, "Android"@, 0);
    lemma_lengths_differ("Windows"@, "iOS"@);
    lemma_chars_differ("macOS"@, "Linux"@, 0);
    lemma_lengths_differ("macOS"@, "Android"@);
    lemma_lengths_differ("macOS"@, "iOS"@);
    lemma_lengths_differ("Linux"@, "Android"@);
    lemma_lengths_differ("Linux"@, "iOS"@);
    lemma_lengths_differ("Android"@, "iOS"@);
    assert("Desktop"@.len() == 7 && "Laptop"@.len() == 6);
    lemma_lengths_differ("Desktop"@, "Laptop"@);
    lemma_lengths_differ("Desktop"@, "Phone"@);
    lemma_lengths_differ("Desktop"@, "Tablet"@);
    lemma_lengths_differ("Laptop"@, "Phone"@);
    lemma_chars_differ("Laptop"@, "Tablet"@, 0);
    lemma_lengths_differ("Phone"@, "Tablet"@);
}

/// The TXT properties a node registers: `id` (its UUID, hyphenated),
/// `name`, `os` and `device_type` (their display names).  Read back, they
/// describe the same device: whatever the addresses and port, a service
/// carrying these values describes this device (without battery level).
pub fn service_properties(local: &DeviceInfo) -> (r: Vec<(String, String)>)
    ensures
        r@.len() == 4,
        r@[0].0@ == "id"@ && r@[0].1@ == uuid_text(local.id),
        r@[1].0@ == "name"@ && r@[1].1@ == local.name@,
        r@[2].0@ == "os"@ && r@[2].1@ == os_text(local.os),
        r@[3].0@ == "device_type"@ && r@[3].1@ == device_type_text(local.device_type),
        forall|rec: ServiceRecord|
            rec.id == Some(r@[0].1) && rec.name == Some(r@[1].1) && rec.os == Some(r@[2].1)
                && rec.device_type == Some(r@[3].1) ==> #[trigger] device_described(rec) == Some(
                (local.id, local.name@, local.os, local.device_type),
            ),
{
    let id = uuid_to_string(local.id);
    let os = local.os.display_name();
    let dt = local.device_type.display_name();
    proof {
        lemma_display_names_parse_back(local.os, local.device_type);
    }
    let mut v: Vec<(String, String)> = Vec::new();
    v.push((own("id"), id));
    v.push((own("name"), local.name.clone()));
    v.push((own("os"), os));
    v.push((own("device_type"), dt));
    v
}

/// Known devices, by id, and the instance name this node registered.
pub struct DiscoveryManager {
    devices: HashMap<u128, DiscoveredDevice>,
    instance_name: String,
}

/// Whether every known device is filed under its own id.
pub open spec fn keyed_by_device_id(m: Map<u128, DiscoveredDevice>) -> bool {
    forall|k: u128| #[trigger] m.contains_key(k) ==> m[k].info.id == k
}

/// The instance name a node registers: `starklink-` and its UUID.
pub open spec fn instance_name_for(id: u128) -> Seq<char> {
    "starklink-"@ + uuid_text(id)
}

/// Whether `new` is `old` with the device `id` marked offline.
pub open spec fn marked_offline(
    old: Map<u128, DiscoveredDevice>,
    new: Map<u128, DiscoveredDevice>,
    id: u128,
) -> bool {
    &&& new.dom() == old.dom()
    &&& forall|k: u128| #[trigger] old.contains_key(k) && k != id ==> new[k] == old[k]
    &&& new[id].info == old[id].info
    &&& new[id].addresses@ == old[id].addresses@
    &&& new[id].port == old[id].port
    &&& !new[id].online
}

impl DiscoveryManager {
    #[verifier::type_invariant]
    spec fn keyed_by_id(self) -> bool {
        keyed_by_device_id(self.devices@)
    }

    /// The known devices, by id.
    pub closed spec fn table(self) -> Map<u128, DiscoveredDevice> {
        self.devices@
    }

    /// The instance name this node registered.
    pub closed spec fn instance(self) -> Seq<char> {
        self.instance_name@
    }

    /// A manager for the local device, knowing no other device yet.
    pub fn new(local: &DeviceInfo) -> (r: Self)
        ensures
            keyed_by_device_id(r.table()),
            r.table() == Map::<u128, DiscoveredDevice>::empty(),
            r.instance() == instance_name_for(local.id),
    {
        let id = uuid_to_string(local.id);
        DiscoveryManager { devices: HashMap::new(), instance_name: concat2("starklink-", id.as_str()) }
    }

    /// The registered instance name.
    pub fn instance_name(&self) -> (r: String)
        ensures
            r@ == self.instance(),
    {
        self.instance_name.clone()
    }

    /// The host name registered with the service: the instance name and
    /// `.local.`.
    pub fn service_hostname(&self) -> (r: String)
        ensures
            r@ == self.instance() + ".local."@,
    {
        concat2(self.instance_name.as_str(), ".local.")
    }

    /// The full name of the registered service: the instance name, `.` and
    /// the service type.
    pub fn service_fullname(&self) -> (r: String)
        ensures
            r@ == self.instance() + "."@ + service_type(),
    {
        concat3(self.instance_name.as_str(), ".", "_starklink._tcp.local.")
    }

    /// A copy of every known device that is online.
    pub fn devices(&self) -> (r: Vec<DiscoveredDevice>)
        ensures
            forall|i: int|
                0 <= i < r@.len() ==> {
                    let d = #[trigger] r@[i];
                    &&& self.table().contains_key(d.info.id)
                    &&& d.info == self.table()[d.info.id].info
                    &&& d.addresses@ == self.table()[d.info.id].addresses@
                    &&& d.port == self.table()[d.info.id].port
                    &&& self.table()[d.info.id].online
                    &&& d.online
                },
            forall|id: u128|
                #[trigger] self.table().contains_key(id) && self.table()[id].online ==> exists|i: int|
                    0 <= i < r@.len() && r@[i].info.id == id,
            forall|i: int, j: int| 0 <= i < j < r@.len() ==> r@[i].info.id != r@[j].info.id,
            keyed_by_device_id(self.table()),
    {
        proof {
            use_type_invariant(self);
        }
        let ghost m = self.devices@;
        let ghost s = spec_hash_map_iter(&self.devices).remaining();
        let mut out: Vec<DiscoveredDevice> = Vec::new();
        let ghost mut pos: Seq<int> = Seq::empty();
        for (k, v) in it: self.devices.iter()
            invariant
                m == self.devices@,
                forall|key: u128| #[trigger] m.contains_key(key) ==> m[key].info.id == key,
                s == spec_hash_map_iter(&self.devices).remaining(),
                it.seq() == s,
                forall|i: int|
                    0 <= i < out@.len() ==> {
                        let d = #[trigger] out@[i];
                        &&& m.contains_key(d.info.id)
                        &&& d.info == m[d.info.id].info
                        &&& d.addresses@ == m[d.info.id].addresses@
                        &&& d.port == m[d.info.id].port
                        &&& m[d.info.id].online
                        &&& d.online
                    },
                s.no_duplicates(),
                pos.len() == out@.len(),
                forall|i: int| 0 <= i < out@.len() ==> out@[i].info.id == *s[#[trigger] pos[i]].0,
                forall|i: int| 0 <= i < out@.len() ==> 0 <= #[trigger] pos[i] < it.index(),
                forall|i: int, j: int| 0 <= i < j < out@.len() ==> out@[i].info.id != out@[j].info.id,
                forall|j: int|
                    0 <= j < it.index() && (#[trigger] s[j]).1.online ==> pos.contains(j),
        {
            let ghost idx = it.index();
            proof {
                assert(m.contains_key(*k) && m[*k] == *v);
                assert(s[idx] == (k, v));
            }
            if v.online {
                proof {
                    assert forall|i: int| 0 <= i < out@.len() implies out@[i].info.id != *k by {
                        let j = pos[i];
                        assert(m[*s[j].0] == *s[j].1);
                        if out@[i].info.id == *k {
                            assert(s[j] == s[idx]);
                        }
                    }
                }
                out.push(v.duplicate());
                proof {
                    let old_pos = pos;
                    pos = pos.push(idx);
                    assert(pos[pos.len() - 1] == idx);
                    assert forall|j: int| old_pos.contains(j) implies pos.contains(j) by {
                        let i = choose|i: int| 0 <= i < old_pos.len() && old_pos[i] == j;
                        assert(pos[i] == j);
                    }
                }
            }
        }
        proof {
            assert forall|id: u128|
                #[trigger] m.contains_key(id) && m[id].online implies exists|i: int|
                0 <= i < out@.len() && out@[i].info.id == id by {
                assert(s.contains((&id, &m[id])));
                let j = choose|j: int| 0 <= j < s.len() && s[j] == (&id, &m[id]);
                assert(s[j].1.online);
                assert(pos.contains(j));
                let i = choose|i: int| 0 <= i < pos.len() && pos[i] == j;
                assert(out@[i].info.id == id);
            }
        }
        out
    }

    /// A copy of a known device, online or not.
    pub fn get_device(&self, id: u128) -> (r: Option<DiscoveredDevice>)
        ensures
            keyed_by_device_id(self.table()),
            r is Some <==> self.table().contains_key(id),
            r matches Some(d) ==> d.info == self.table()[id].info && d.addresses@
                == self.table()[id].addresses@ && d.port == self.table()[id].port && d.online
                == self.table()[id].online,
    {
        proof {
            use_type_invariant(self);
        }
        match self.devices.get(&id) {
            Some(d) => Some(d.duplicate()),
            None => None,
        }
    }

    fn put(&mut self, d: DiscoveredDevice)
        ensures
            keyed_by_device_id(final(self).table()),
            final(self).table() == old(self).table().insert(d.info.id, d),
            final(self).instance() == old(self).instance(),
    {
        proof {
            use_type_invariant(&*self);
        }
        let mut m = HashMap::new();
        std::mem::swap(&mut m, &mut self.devices);
        let id = d.info.id;
        m.insert(id, d);
        self.devices = m;
    }

    /// The id of a known device whose UUID text occurs in a full name.
    fn find_named(&self, fullname: &str) -> (r: Option<u128>)
        ensures
            r matches Some(id) ==> self.table().contains_key(id) && seq_contains_sub(
                fullname@,
                uuid_text(id),
            ),
            r is None ==> forall|id: u128|
                #[trigger] self.table().contains_key(id) ==> !seq_contains_sub(fullname@, uuid_text(id)),
    {
        let ghost m = self.devices@;
        let ghost s = spec_hash_map_iter(&self.devices).remaining();
        for (k, v) in it: self.devices.iter()
            invariant
                m == self.devices@,
                s == spec_hash_map_iter(&self.devices).remaining(),
                it.seq() == s,
                forall|j: int|
                    0 <= j < it.index() ==> !seq_contains_sub(fullname@, uuid_text(*(#[trigger] s[j]).0)),
        {
            let ghost idx = it.index();
            proof {
                assert(m.contains_key(*k));
                assert(s[idx] == (k, v));
            }
            let text = uuid_to_string(*k);
            if contains_str(fullname, text.as_str()) {
                return Some(*k);
            }
        }
        proof {
            assert forall|id: u128| #[trigger] m.contains_key(id) implies !seq_contains_sub(
                fullname@,
                uuid_text(id),
            ) by {
                assert(s.contains((&id, &m[id])));
                let j = choose|j: int| 0 <= j < s.len() && s[j] == (&id, &m[id]);
                assert(*s[j].0 == id);
            }
        }
        None
    }

    /// Take in what the daemon reported while browsing.
    ///
    /// * A resolved service of this node's own instance, or one whose TXT
    ///   values do not describe a device, is ignored.  Otherwise the device is
    ///   recorded (replacing what was known of it) and reported as found when
    ///   it was unknown, as updated otherwise.
    /// * A removed service marks a known device whose UUID occurs in the
    ///   service's full name as offline, and reports it lost.
    /// * Anything else is ignored.
    pub fn handle_service_event(&mut self, ev: ServiceEvent) -> (r: Option<DiscoveryEvent>)
        ensures
            keyed_by_device_id(final(self).table()),
            final(self).instance() == old(self).instance(),
            ev is Other ==> r is None && final(self).table() == old(self).table(),
            ev matches ServiceEvent::Resolved(rec) ==> if seq_contains_sub(
                rec.fullname@,
                old(self).instance(),
            ) || device_described(rec) is None {
                r is None && final(self).table() == old(self).table()
            } else {
                exists|dev: DiscoveredDevice|
                    {
                        &&& #[trigger] describes(rec, dev)
                        &&& final(self).table() == old(self).table().insert(dev.info.id, dev)
                        &&& if old(self).table().contains_key(dev.info.id) {
                            r matches Some(DiscoveryEvent::DeviceUpdated(d)) && d.info == dev.info
                                && d.addresses@ == dev.addresses@ && d.port == dev.port && d.online
                        } else {
                            r matches Some(DiscoveryEvent::DeviceFound(d)) && d.info == dev.info
                                && d.addresses@ == dev.addresses@ && d.port == dev.port && d.online
                        }
                    }
            },
            ev matches ServiceEvent::Removed(fullname) ==> match r {
                Some(DiscoveryEvent::DeviceLost(id)) => {
                    &&& old(self).table().contains_key(id)
                    &&& seq_contains_sub(fullname@, uuid_text(id))
                    &&& marked_offline(old(self).table(), final(self).table(), id)
                },
                None => {
                    &&& final(self).table() == old(self).table()
                    &&& forall|id: u128|
                        #[trigger] old(self).table().contains_key(id) ==> !seq_contains_sub(
                            fullname@,
                            uuid_text(id),
                        )
                },
                _ => false,
            },
    {
        proof {
            use_type_invariant(&*self);
        }
        match ev {
            ServiceEvent::Resolved(rec) => {
                if contains_str(rec.fullname.as_str(), self.instance_name.as_str()) {
                    return None;
                }
                let dev = match parse_service_info(&rec) {
                    Some(d) => d,
                    None => {
                        return None;
                    },
                };
                let id = dev.info.id;
                let is_new = !self.devices.contains_key(&id);
                let report = dev.duplicate();
                self.put(dev);
                if is_new {
                    Some(DiscoveryEvent::DeviceFound(report))
                } else {
                    Some(DiscoveryEvent::DeviceUpdated(report))
                }
            },
            ServiceEvent::Removed(fullname) => {
                match self.find_named(fullname.as_str()) {
                    Some(id) => {
                        proof {
                            use_type_invariant(&*self);
                        }
                        let ghost old_table = self.devices@;
                        let mut d = self.devices.get(&id).unwrap().duplicate();
                        d.online = false;
                        self.put(d);
                        proof {
                            assert(self.devices@.dom() =~= old_table.dom());
                            assert(marked_offline(old_table, self.devices@, id));
                        }
                        Some(DiscoveryEvent::DeviceLost(id))
                    },
                    None => None,
                }
            },
            ServiceEvent::Other => None,
        }
    }
}

} // verus!
