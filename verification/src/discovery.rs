//! Local device discovery: the registry of devices seen on the IPC bus, with
//! their last-seen times, and the expiry of devices that went quiet.
//!
//! Times are milliseconds of a clock that the caller reads (wall-clock for
//! the `last_seen_ms` a device reports, a monotonic clock for expiry).

use vstd::prelude::*;
use crate::clock::{epoch_millis, epoch_millis_u64, epoch_reading, is_clock_millis_u64};
use crate::table::KeyedTable;
use crate::text::{concat3, owned};

verus! {

/// Discovery topic for device announcements.
pub const DISCOVERY_TOPIC: &'static str = "sys/device/discovery";

/// Configuration for device discovery.
#[derive(Debug, Clone)]
pub struct DeviceDiscoveryConfig {
    /// Product key of this device
    pub product_key: String,
    /// Device ID of this device
    pub device_id: String,
    /// Interval between discovery broadcasts (seconds)
    pub broadcast_interval_secs: u64,
    /// Time after which a device is considered offline (seconds)
    pub device_timeout_secs: u64,
}

impl Default for DeviceDiscoveryConfig {
    fn default() -> (c: Self)
        ensures
            c.product_key@.len() == 0,
            c.device_id@.len() == 0,
            c.broadcast_interval_secs == 5,
            c.device_timeout_secs == 15,
    {
        DeviceDiscoveryConfig {
            product_key: String::new(),
            device_id: String::new(),
            broadcast_interval_secs: 5,
            device_timeout_secs: 15,
        }
    }
}

/// Information about a discovered device.
#[derive(Debug)]
pub struct DeviceInfo {
    /// Product key of the device
    pub product_key: String,
    /// Device ID
    pub device_id: String,
    /// Device name (optional)
    pub device_name: Option<String>,
    /// Timestamp of last seen (Unix epoch millis)
    pub last_seen_ms: u64,
    /// Additional metadata
    pub metadata: KeyedTable<String>,
}

/// The registry key of a device: `{pk}:{did}`.
pub open spec fn device_key_spec(pk: Seq<char>, did: Seq<char>) -> Seq<char> {
    pk + ":"@ + did
}

/// Two device records hold the same data.
pub open spec fn same_info(a: DeviceInfo, b: DeviceInfo) -> bool {
    &&& a.product_key == b.product_key
    &&& a.device_id == b.device_id
    &&& a.device_name == b.device_name
    &&& a.last_seen_ms == b.last_seen_ms
    &&& a.metadata@ == b.metadata@
}

/// Whether a record is that of some device in a registry.
pub open spec fn recorded(registry: Map<Seq<char>, DeviceEntry>, d: DeviceInfo) -> bool {
    exists|k: Seq<char>| #[trigger] registry.dom().contains(k) && same_info(d, registry[k].info)
}

impl DeviceInfo {
    /// A device record with no name or metadata, seen now.
    pub fn new(product_key: &str, device_id: &str) -> (d: Self)
        ensures
            d.product_key@ == product_key@,
            d.device_id@ == device_id@,
            d.device_name is None,
            d.metadata@ == Map::<Seq<char>, String>::empty(),
            is_clock_millis_u64(d.last_seen_ms),
    {
        DeviceInfo {
            product_key: owned(product_key),
            device_id: owned(device_id),
            device_name: None,
            last_seen_ms: Self::current_time_ms(),
            metadata: KeyedTable::new(),
        }
    }

    /// The wall-clock time in milliseconds since the Unix epoch, `0` before
    /// the epoch.
    pub fn current_time_ms() -> (t: u64)
        ensures
            is_clock_millis_u64(t),
    {
        let r = epoch_millis();
        let ghost st = choose|st: std::time::SystemTime| r == #[trigger] epoch_reading(st);
        let t: u64 = match r {
            Some(ms) => ms as u64,
            None => 0,
        };
        assert(t == epoch_millis_u64(st));
        t
    }

    /// Marks the device as seen now; nothing else changes.
    pub fn touch(&mut self)
        ensures
            final(self).product_key == old(self).product_key,
            final(self).device_id == old(self).device_id,
            final(self).device_name == old(self).device_name,
            final(self).metadata@ == old(self).metadata@,
            is_clock_millis_u64(final(self).last_seen_ms),
    {
        self.last_seen_ms = Self::current_time_ms();
    }

    /// The unique registry key of the device.
    pub fn key(&self) -> (k: String)
        ensures
            k@ == device_key_spec(self.product_key@, self.device_id@),
    {
        concat3(self.product_key.as_str(), ":", self.device_id.as_str())
    }

    /// A copy of the record.
    pub fn duplicate(&self) -> (d: Self)
        ensures
            same_info(d, *self),
    {
        DeviceInfo {
            product_key: self.product_key.clone(),
            device_id: self.device_id.clone(),
            device_name: match &self.device_name { Some(n) => Some(n.clone()), None => None },
            last_seen_ms: self.last_seen_ms,
            metadata: self.metadata.duplicate(),
        }
    }
}

/// A device in the registry: its record and when it was last heard from.
#[derive(Debug)]
pub struct DeviceEntry {
    /// The device's record
    pub info: DeviceInfo,
    /// Monotonic time it was last heard from, in milliseconds
    pub last_seen: u64,
}

/// Whether a device last heard from at `last_seen` has gone quiet for longer
/// than the timeout by `now` (time running backwards counts as no time).
pub open spec fn is_stale(last_seen: u64, now: u64, timeout_secs: u64) -> bool {
    (if now >= last_seen { now - last_seen } else { 0 }) > timeout_secs * 1000
}

/// Whether a device went quiet for longer than the timeout.
pub fn stale(last_seen: u64, now: u64, timeout_secs: u64) -> (b: bool)
    ensures
        b == is_stale(last_seen, now, timeout_secs),
{
    let elapsed: u128 = if now >= last_seen { (now - last_seen) as u128 } else { 0 };
    elapsed > (timeout_secs as u128) * 1000
}

/// The discovery service's registry of devices on the local bus.
#[derive(Debug)]
pub struct DeviceDiscovery {
    config: DeviceDiscoveryConfig,
    devices: KeyedTable<DeviceEntry>,
    running: bool,
}

impl DeviceDiscovery {
    /// The devices, by registry key.
    pub closed spec fn registry(&self) -> Map<Seq<char>, DeviceEntry> {
        self.devices@
    }

    /// The configuration.
    pub closed spec fn config_spec(&self) -> DeviceDiscoveryConfig {
        self.config
    }

    /// Whether the service runs.
    pub closed spec fn running_spec(&self) -> bool {
        self.running
    }

    /// A stopped service with no devices.
    pub fn new(config: DeviceDiscoveryConfig) -> (d: Self)
        ensures
            d.config_spec() == config,
            d.registry() == Map::<Seq<char>, DeviceEntry>::empty(),
            !d.running_spec(),
    {
        DeviceDiscovery { config, devices: KeyedTable::new(), running: false }
    }

    /// The configuration.
    pub fn config(&self) -> (c: &DeviceDiscoveryConfig)
        ensures
            *c == self.config_spec(),
    {
        &self.config
    }

    /// Copies of the records of all devices in the registry.
    pub fn get_devices(&self) -> (v: Vec<DeviceInfo>)
        ensures
            forall|i: int| 0 <= i < v.len() ==> recorded(self.registry(), #[trigger] v[i]),
            forall|k: Seq<char>| #[trigger] self.registry().dom().contains(k) ==> exists|i: int|
                0 <= i < v.len() && same_info(#[trigger] v[i], self.registry()[k].info),
            v.len() == self.registry().dom().len(),
    {
        let mut v: Vec<DeviceInfo> = Vec::new();
        let n = self.devices.len();
        proof {
            self.devices.lemma_keys();
            assert forall|j: int| 0 <= j < n implies self.devices@.dom().contains(#[trigger] self.devices.key_seq()[j]) by {
                assert(self.devices.key_seq().contains(self.devices.key_seq()[j]));
            }
        }
        let mut i: usize = 0;
        while i < n
            invariant
                n == self.devices.key_seq().len(),
                i <= n,
                v.len() == i,
                forall|j: int| 0 <= j < i ==> same_info(#[trigger] v[j], self.devices@[self.devices.key_seq()[j]].info),
                forall|j: int| 0 <= j < n ==> self.devices@.dom().contains(#[trigger] self.devices.key_seq()[j]),
            decreases n - i,
        {
            let (k, e) = self.devices.entry_at(i);
            v.push(e.info.duplicate());
            i = i + 1;
        }
        proof {
            self.devices.lemma_keys();
            assert forall|i: int| 0 <= i < v.len() implies recorded(self.registry(), #[trigger] v[i]) by {
                let k = self.devices.key_seq()[i];
                assert(self.registry().dom().contains(k));
            }
            assert forall|k: Seq<char>| #[trigger] self.registry().dom().contains(k) implies exists|i: int|
                0 <= i < v.len() && same_info(#[trigger] v[i], self.registry()[k].info) by {
                assert(self.devices.key_seq().contains(k));
                let i = choose|i: int| 0 <= i < self.devices.key_seq().len() && self.devices.key_seq()[i] == k;
                assert(same_info(v[i], self.registry()[k].info));
            }
        }
        v
    }

    /// The record of a device, if it is in the registry.
    pub fn get_device(&self, product_key: &str, device_id: &str) -> (r: Option<DeviceInfo>)
        ensures
            r is Some == self.registry().dom().contains(device_key_spec(product_key@, device_id@)),
            r matches Some(d) ==> same_info(d, self.registry()[device_key_spec(product_key@, device_id@)].info),
    {
        let key = concat3(product_key, ":", device_id);
        match self.devices.get(key.as_str()) {
            Some(e) => Some(e.info.duplicate()),
            None => None,
        }
    }

    /// Whether a device is in the registry.
    pub fn is_device_online(&self, product_key: &str, device_id: &str) -> (b: bool)
        ensures
            b == self.registry().dom().contains(device_key_spec(product_key@, device_id@)),
    {
        let key = concat3(product_key, ":", device_id);
        self.devices.contains_key(key.as_str())
    }

    /// Records an announcement heard at monotonic time `now`: the device's
    /// record is marked as seen (its `last_seen_ms` set to a reading of the
    /// wall clock) and stored under its key. The result says
    /// whether the device is new to the registry.
    pub fn handle_discovery_info(&mut self, info: DeviceInfo, now: u64) -> (is_new: bool)
        ensures
            is_new == !old(self).registry().dom().contains(device_key_spec(info.product_key@, info.device_id@)),
            final(self).registry().dom() == old(self).registry().dom().insert(device_key_spec(info.product_key@, info.device_id@)),
            forall|k: Seq<char>| k != device_key_spec(info.product_key@, info.device_id@)
                && #[trigger] old(self).registry().dom().contains(k) ==> final(self).registry()[k] == old(self).registry()[k],
            ({
                let e = final(self).registry()[device_key_spec(info.product_key@, info.device_id@)];
                &&& e.last_seen == now
                &&& e.info.product_key == info.product_key
                &&& e.info.device_id == info.device_id
                &&& e.info.device_name == info.device_name
                &&& e.info.metadata@ == info.metadata@
                &&& is_clock_millis_u64(e.info.last_seen_ms)
            }),
            final(self).config_spec() == old(self).config_spec(),
            final(self).running_spec() == old(self).running_spec(),
    {
        let mut info = info;
        info.touch();
        let key = info.key();
        let is_new = !self.devices.contains_key(key.as_str());
        self.devices.insert(key, DeviceEntry { info, last_seen: now });
        is_new
    }

    /// Removes every device that went quiet for longer than the timeout by
    /// monotonic time `now`, handing back the key and record of each.
    pub fn expire(&mut self, now: u64) -> (removed: Vec<(String, DeviceInfo)>)
        ensures
            forall|k: Seq<char>| #[trigger] final(self).registry().dom().contains(k) <==>
                (old(self).registry().dom().contains(k)
                    && !is_stale(old(self).registry()[k].last_seen, now, old(self).config_spec().device_timeout_secs)),
            forall|k: Seq<char>| #[trigger] final(self).registry().dom().contains(k) ==>
                final(self).registry()[k] == old(self).registry()[k],
            forall|i: int| 0 <= i < removed.len() ==> {
                let k = (#[trigger] removed[i]).0@;
                &&& old(self).registry().dom().contains(k)
                &&& is_stale(old(self).registry()[k].last_seen, now, old(self).config_spec().device_timeout_secs)
                &&& same_info(removed[i].1, old(self).registry()[k].info)
            },
            forall|k: Seq<char>| #[trigger] old(self).registry().dom().contains(k)
                && is_stale(old(self).registry()[k].last_seen, now, old(self).config_spec().device_timeout_secs)
                ==> exists|i: int| 0 <= i < removed.len() && removed[i].0@ == k,
            forall|i: int, j: int| 0 <= i < j < removed.len() ==> (#[trigger] removed[i]).0@ != (#[trigger] removed[j]).0@,
            final(self).config_spec() == old(self).config_spec(),
            final(self).running_spec() == old(self).running_spec(),
    {
        let timeout = self.config.device_timeout_secs;
        let ghost old_map = self.devices@;
        // Which keys went quiet.
        let n = self.devices.len();
        proof {
            self.devices.lemma_keys();
            assert forall|j: int| 0 <= j < n implies old_map.dom().contains(#[trigger] self.devices.key_seq()[j]) by {
                assert(self.devices.key_seq().contains(self.devices.key_seq()[j]));
            }
        }
        let mut keys: Vec<String> = Vec::new();
        let mut i: usize = 0;
        while i < n
            invariant
                n == self.devices.key_seq().len(),
                self.devices@ == old_map,
                self.config == old(self).config,
                self.running == old(self).running,
                i <= n,
                forall|j: int| 0 <= j < keys.len() ==> old_map.dom().contains(#[trigger] keys[j]@)
                    && is_stale(old_map[keys[j]@].last_seen, now, timeout),
                forall|j: int| 0 <= j < i && is_stale(old_map[#[trigger] self.devices.key_seq()[j]].last_seen, now, timeout)
                    ==> exists|m: int| 0 <= m < keys.len() && keys[m]@ == self.devices.key_seq()[j],
                forall|j: int| 0 <= j < n ==> old_map.dom().contains(#[trigger] self.devices.key_seq()[j]),
            decreases n - i,
        {
            let ghost prev_keys = keys@;
            let (k, e) = self.devices.entry_at(i);
            if stale(e.last_seen, now, timeout) {
                keys.push(k.clone());
                assert(keys[keys.len() - 1]@ == self.devices.key_seq()[i as int]);
            }
            assert forall|jj: int| 0 <= jj < i + 1 && is_stale(old_map[#[trigger] self.devices.key_seq()[jj]].last_seen, now, timeout)
                implies exists|m: int| 0 <= m < keys.len() && keys[m]@ == self.devices.key_seq()[jj] by {
                if jj < i {
                    let m = choose|m: int| 0 <= m < prev_keys.len() && prev_keys[m]@ == self.devices.key_seq()[jj];
                    assert(keys[m] == prev_keys[m]);
                } else {
                    assert(keys[keys.len() - 1]@ == self.devices.key_seq()[jj]);
                }
            }
            i = i + 1;
        }
        proof {
            self.devices.lemma_keys();
            assert forall|k: Seq<char>| #[trigger] old_map.dom().contains(k) && is_stale(old_map[k].last_seen, now, timeout)
                implies exists|m: int| 0 <= m < keys.len() && keys[m]@ == k by {
                assert(self.devices.key_seq().contains(k));
                let j = choose|j: int| 0 <= j < self.devices.key_seq().len() && self.devices.key_seq()[j] == k;
                assert(is_stale(old_map[self.devices.key_seq()[j]].last_seen, now, timeout));
            }
        }
        // Take them out.
        let mut removed: Vec<(String, DeviceInfo)> = Vec::new();
        let mut j: usize = 0;
        while j < keys.len()
            invariant
                j <= keys.len(),
                forall|m: int| 0 <= m < keys.len() ==> old_map.dom().contains(#[trigger] keys[m]@)
                    && is_stale(old_map[keys[m]@].last_seen, now, timeout),
                forall|k: Seq<char>| #[trigger] self.devices@.dom().contains(k) <==>
                    (old_map.dom().contains(k) && !(exists|m: int| 0 <= m < j && keys[m]@ == k)),
                forall|k: Seq<char>| #[trigger] self.devices@.dom().contains(k) ==> self.devices@[k] == old_map[k],
                forall|p: int| 0 <= p < removed.len() ==> {
                    let k = (#[trigger] removed[p]).0@;
                    &&& old_map.dom().contains(k)
                    &&& is_stale(old_map[k].last_seen, now, timeout)
                    &&& same_info(removed[p].1, old_map[k].info)
                },
                forall|m: int| 0 <= m < j ==> exists|p: int| 0 <= p < removed.len() && removed[p].0@ == (#[trigger] keys[m])@,
                forall|p: int| 0 <= p < removed.len() ==> !self.devices@.dom().contains((#[trigger] removed[p]).0@),
                forall|p: int, q: int| 0 <= p < q < removed.len() ==> (#[trigger] removed[p]).0@ != (#[trigger] removed[q]).0@,
                self.config == old(self).config,
                self.running == old(self).running,
                self.config.device_timeout_secs == timeout,
            decreases keys.len() - j,
        {
            let key = keys[j].clone();
            let ghost before = self.devices@;
            let ghost prev_removed = removed@;
            match self.devices.remove(key.as_str()) {
                Some(entry) => {
                    removed.push((key, entry.info));
                    assert(removed[removed.len() - 1].0@ == keys[j as int]@);
                },
                None => {
                    assert(!before.dom().contains(keys[j as int]@));
                    assert(exists|m: int| 0 <= m < j && keys[m]@ == keys[j as int]@);
                    let ghost m = choose|m: int| 0 <= m < j && keys[m]@ == keys[j as int]@;
                    assert(exists|p: int| 0 <= p < removed.len() && removed[p].0@ == keys[m]@);
                },
            }
            assert forall|m: int| 0 <= m < j + 1 implies exists|p: int| 0 <= p < removed.len() && removed[p].0@ == (#[trigger] keys[m])@ by {
                if m < j {
                    let p = choose|p: int| 0 <= p < prev_removed.len() && prev_removed[p].0@ == keys[m]@;
                    assert(removed[p] == prev_removed[p]);
                }
            }
            assert forall|k: Seq<char>| #[trigger] self.devices@.dom().contains(k) <==>
                (old_map.dom().contains(k) && !(exists|m: int| 0 <= m < j + 1 && keys[m]@ == k)) by {
                if exists|m: int| 0 <= m < j + 1 && keys[m]@ == k {
                    let m = choose|m: int| 0 <= m < j + 1 && keys[m]@ == k;
                    if m < j {
                        assert(!before.dom().contains(k));
                    }
                }
            }
            j = j + 1;
        }
        proof {
            assert forall|k: Seq<char>| #[trigger] old_map.dom().contains(k) && is_stale(old_map[k].last_seen, now, timeout)
                implies exists|i: int| 0 <= i < removed.len() && removed[i].0@ == k by {
                let m = choose|m: int| 0 <= m < keys.len() && keys[m]@ == k;
                assert(exists|p: int| 0 <= p < removed.len() && removed[p].0@ == keys[m]@);
            }
            assert forall|k: Seq<char>| #[trigger] self.devices@.dom().contains(k) <==>
                (old_map.dom().contains(k) && !is_stale(old_map[k].last_seen, now, timeout)) by {
                if old_map.dom().contains(k) && is_stale(old_map[k].last_seen, now, timeout) {
                    let m = choose|m: int| 0 <= m < keys.len() && keys[m]@ == k;
                }
                if exists|m: int| 0 <= m < keys.len() && keys[m]@ == k {
                    let m = choose|m: int| 0 <= m < keys.len() && keys[m]@ == k;
                    assert(is_stale(old_map[keys[m]@].last_seen, now, timeout));
                }
            }
        }
        removed
    }

    /// The record this device announces itself with.
    pub fn broadcast_info(&self) -> (d: DeviceInfo)
        ensures
            d.product_key@ == self.config_spec().product_key@,
            d.device_id@ == self.config_spec().device_id@,
            d.device_name is None,
            d.metadata@ == Map::<Seq<char>, String>::empty(),
    {
        DeviceInfo::new(self.config.product_key.as_str(), self.config.device_id.as_str())
    }

    /// Starting: the result says whether there is work to do (the service
    /// was stopped; its cleanup task then starts).
    pub fn start(&mut self) -> (fresh: bool)
        ensures
            fresh == !old(self).running_spec(),
            final(self).running_spec(),
            final(self).registry() == old(self).registry(),
            final(self).config_spec() == old(self).config_spec(),
    {
        let fresh = !self.running;
        self.running = true;
        fresh
    }

    /// Stopping: the result says whether there is work to do (the service
    /// was running; its tasks are then aborted).
    pub fn stop(&mut self) -> (was: bool)
        ensures
            was == old(self).running_spec(),
            !final(self).running_spec(),
            final(self).registry() == old(self).registry(),
            final(self).config_spec() == old(self).config_spec(),
    {
        let was = self.running;
        self.running = false;
        was
    }

    /// Whether the service runs.
    pub fn is_running(&self) -> (b: bool)
        ensures
            b == self.running_spec(),
    {
        self.running
    }
}

} // verus!
