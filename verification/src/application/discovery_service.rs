//! Device discovery for clients: the listing of a product's devices and the
//! sub-devices of a gateway.

use vstd::prelude::*;
use crate::domain::device::{device_status_text, Device};
use crate::text::{clone_opt, equal_str, owned};

verus! {

/// How long a cached device listing stays fresh, in seconds.
pub const DEFAULT_CACHE_TTL_SECS: u64 = 60;

/// A device as listed to clients.
#[derive(Debug, Clone)]
pub struct DiscoveryDevice {
    pub product_key: String,
    pub device_id: String,
    pub device_name: Option<String>,
    pub status: String,
    pub parent_id: Option<String>,
}

impl DiscoveryDevice {
    /// A copy of the listing.
    pub fn duplicate(&self) -> (r: Self)
        ensures
            r == *self,
    {
        DiscoveryDevice {
            product_key: self.product_key.clone(),
            device_id: self.device_id.clone(),
            device_name: clone_opt(&self.device_name),
            status: self.status.clone(),
            parent_id: clone_opt(&self.parent_id),
        }
    }

    /// The listing of a device: its keys, name, status text and gateway.
    pub fn from_device(d: &Device) -> (r: Self)
        ensures
            r.product_key == d.product_key,
            r.device_id == d.device_id,
            r.device_name == d.device_name,
            r.status@ == device_status_text(d.device_status),
            r.parent_id == d.parent_id,
    {
        DiscoveryDevice {
            product_key: d.product_key.clone(),
            device_id: d.device_id.clone(),
            device_name: clone_opt(&d.device_name),
            status: owned(d.device_status.as_str()),
            parent_id: clone_opt(&d.parent_id),
        }
    }
}

/// The listings of devices, in order.
pub fn discovery_devices(devices: &Vec<Device>) -> (v: Vec<DiscoveryDevice>)
    ensures
        v.len() == devices.len(),
        forall|i: int| 0 <= i < v.len() ==> {
            &&& (#[trigger] v[i]).product_key == devices[i].product_key
            &&& v[i].device_id == devices[i].device_id
            &&& v[i].device_name == devices[i].device_name
            &&& v[i].status@ == device_status_text(devices[i].device_status)
            &&& v[i].parent_id == devices[i].parent_id
        },
{
    let mut v: Vec<DiscoveryDevice> = Vec::new();
    let mut i: usize = 0;
    while i < devices.len()
        invariant
            i <= devices.len(),
            v.len() == i,
            forall|j: int| 0 <= j < i ==> {
                &&& (#[trigger] v[j]).product_key == devices[j].product_key
                &&& v[j].device_id == devices[j].device_id
                &&& v[j].device_name == devices[j].device_name
                &&& v[j].status@ == device_status_text(devices[j].device_status)
                &&& v[j].parent_id == devices[j].parent_id
            },
        decreases devices.len() - i,
    {
        v.push(DiscoveryDevice::from_device(&devices[i]));
        i = i + 1;
    }
    v
}

/// Whether a listed device hangs off the gateway `gateway_id`.
pub open spec fn under_gateway(gateway_id: Seq<char>) -> spec_fn(DiscoveryDevice) -> bool {
    |d: DiscoveryDevice| d.parent_id matches Some(p) && p@ == gateway_id
}

/// The sub-devices of a gateway among listed devices, in order.
pub fn sub_devices(devices: &Vec<DiscoveryDevice>, gateway_device_id: &str) -> (v: Vec<DiscoveryDevice>)
    ensures
        v@ == devices@.filter(under_gateway(gateway_device_id@)),
{
    let mut v: Vec<DiscoveryDevice> = Vec::new();
    let mut i: usize = 0;
    while i < devices.len()
        invariant
            i <= devices.len(),
            v@ == devices@.take(i as int).filter(under_gateway(gateway_device_id@)),
        decreases devices.len() - i,
    {
        let d = &devices[i];
        proof {
            assert(devices@.take(i + 1) =~= devices@.take(i as int).push(*d));
            devices@.take(i as int).lemma_filter_push(*d, under_gateway(gateway_device_id@));
        }
        let keep = match &d.parent_id {
            Some(p) => equal_str(p.as_str(), gateway_device_id),
            None => false,
        };
        if keep {
            v.push(d.duplicate());
        }
        i = i + 1;
    }
    assert(devices@.take(devices.len() as int) =~= devices@);
    v
}

/// What the device-listing cache holds: the listing of each product key.
pub uninterp spec fn cache_contents(m: dashmap::DashMap<String, Vec<DiscoveryDevice>>) -> Map<Seq<char>, Seq<DiscoveryDevice>>;

/// An empty `DashMap`.
#[verifier::external_body]
fn cache_new() -> (m: dashmap::DashMap<String, Vec<DiscoveryDevice>>)
    ensures
        cache_contents(m).dom() == Set::<Seq<char>>::empty(),
{
    dashmap::DashMap::new()
}

/// A copy of the listing stored under a key (`DashMap::get`, then the
/// derived `Clone` of the listing, which copies each field).
#[verifier::external_body]
fn cache_get(m: &dashmap::DashMap<String, Vec<DiscoveryDevice>>, key: &str) -> (r: Option<Vec<DiscoveryDevice>>)
    ensures
        r is Some == cache_contents(*m).dom().contains(key@),
        r matches Some(v) ==> v@ == cache_contents(*m)[key@],
{
    m.get(key).map(|e| e.value().clone())
}

/// Stores a listing under a key, replacing what was there (`DashMap::insert`).
#[verifier::external_body]
fn cache_insert(m: &mut dashmap::DashMap<String, Vec<DiscoveryDevice>>, key: String, value: Vec<DiscoveryDevice>)
    ensures
        cache_contents(*final(m)) == cache_contents(*old(m)).insert(key@, value@),
{
    m.insert(key, value);
}

/// The keys of the map, each once (`DashMap::iter`).
#[verifier::external_body]
fn cache_keys(m: &dashmap::DashMap<String, Vec<DiscoveryDevice>>) -> (r: Vec<String>)
    ensures
        forall|i: int, j: int| 0 <= i < j < r.len() ==> (#[trigger] r[i])@ != (#[trigger] r[j])@,
        forall|i: int| 0 <= i < r.len() ==> cache_contents(*m).dom().contains((#[trigger] r[i])@),
        forall|k: Seq<char>| #[trigger] cache_contents(*m).dom().contains(k) ==> exists|i: int| 0 <= i < r.len() && r[i]@ == k,
{
    m.iter().map(|e| e.key().clone()).collect()
}

/// The device listings of products, with the time of the last refresh; a
/// listing is served from the cache while the last refresh is younger than
/// the cache lives. Times are milliseconds of a monotonic clock.
#[derive(Debug)]
pub struct DiscoveryCache {
    cache: dashmap::DashMap<String, Vec<DiscoveryDevice>>,
    ttl_ms: u64,
    last_refresh_ms: u64,
}

impl DiscoveryCache {
    /// The listings, by product key.
    pub closed spec fn listings(&self) -> Map<Seq<char>, Seq<DiscoveryDevice>> {
        cache_contents(self.cache)
    }

    /// How long listings stay fresh.
    pub closed spec fn ttl(&self) -> u64 {
        self.ttl_ms
    }

    /// When the cache was last refreshed.
    pub closed spec fn last_refresh(&self) -> u64 {
        self.last_refresh_ms
    }

    /// An empty cache whose listings live 60 seconds, refreshed at `now_ms`.
    pub fn new(now_ms: u64) -> (c: Self)
        ensures
            c.listings().dom() == Set::<Seq<char>>::empty(),
            c.ttl() == DEFAULT_CACHE_TTL_SECS * 1000,
            c.last_refresh() == now_ms,
    {
        DiscoveryCache { cache: cache_new(), ttl_ms: DEFAULT_CACHE_TTL_SECS * 1000, last_refresh_ms: now_ms }
    }

    /// The same cache with another lifetime for listings.
    pub fn with_cache_ttl(self, ttl_ms: u64) -> (c: Self)
        ensures
            c.listings() == self.listings(),
            c.ttl() == ttl_ms,
            c.last_refresh() == self.last_refresh(),
    {
        DiscoveryCache { ttl_ms, ..self }
    }

    /// The cached listing of a product while it is fresh at `now_ms`.
    pub fn cached(&self, product_key: &str, now_ms: u64) -> (r: Option<Vec<DiscoveryDevice>>)
        ensures
            r is Some <==> (self.listings().dom().contains(product_key@)
                && (if now_ms >= self.last_refresh() { now_ms - self.last_refresh() } else { 0 }) < self.ttl()),
            r matches Some(v) ==> v@ == self.listings()[product_key@],
    {
        match cache_get(&self.cache, product_key) {
            Some(v) => {
                let elapsed: u64 = if now_ms >= self.last_refresh_ms { now_ms - self.last_refresh_ms } else { 0 };
                if cache_is_fresh(elapsed, self.ttl_ms) { Some(v) } else { None }
            },
            None => None,
        }
    }

    /// Stores a freshly read listing of a product, refreshed at `now_ms`.
    pub fn store(&mut self, product_key: &str, devices: Vec<DiscoveryDevice>, now_ms: u64)
        ensures
            final(self).listings() == old(self).listings().insert(product_key@, devices@),
            final(self).ttl() == old(self).ttl(),
            final(self).last_refresh() == now_ms,
    {
        cache_insert(&mut self.cache, owned(product_key), devices);
        self.last_refresh_ms = now_ms;
    }

    /// The product keys with a cached listing, each once.
    pub fn product_keys(&self) -> (r: Vec<String>)
        ensures
            forall|i: int, j: int| 0 <= i < j < r.len() ==> (#[trigger] r[i])@ != (#[trigger] r[j])@,
            forall|i: int| 0 <= i < r.len() ==> self.listings().dom().contains((#[trigger] r[i])@),
            forall|k: Seq<char>| #[trigger] self.listings().dom().contains(k) ==> exists|i: int| 0 <= i < r.len() && r[i]@ == k,
    {
        cache_keys(&self.cache)
    }
}

/// Whether a cached listing is still fresh: less time has passed since it
/// was refreshed than the cache lives.
pub fn cache_is_fresh(elapsed_ms: u64, ttl_ms: u64) -> (b: bool)
    ensures
        b == (elapsed_ms < ttl_ms),
{
    elapsed_ms < ttl_ms
}

} // verus!
