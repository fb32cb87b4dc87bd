//! Device shadow: the cached properties of a device.

use vstd::prelude::*;
use crate::clock::{is_clock_millis, now_millis};
use crate::outside::{
    empty_json_object, is_json_object, json_is_object, json_object_entries, json_object_insert,
    json_object_map,
};

verus! {

/// Device shadow — the cached property values of a device (a JSON object)
/// and when they last changed, in milliseconds since the Unix epoch.
#[derive(Debug, Clone)]
pub struct DeviceShadow {
    pub product_key: String,
    pub device_id: String,
    /// Current property values (JSON object)
    pub properties: serde_json::Value,
    /// Last update time
    pub updated_at: i64,
}

/// Shadow service configuration: the method replayed when a device of the
/// product comes online.
#[derive(Debug, Clone)]
pub struct ShadowServiceConfig {
    pub product_key: String,
    /// Service method to invoke on device online
    pub method: String,
}

/// Shadow service property record — per-device shadow method payload.
#[derive(Debug, Clone)]
pub struct ShadowServiceProperty {
    pub product_key: String,
    pub device_id: String,
    /// Service method name
    pub method: String,
    /// Stored payload (JSON text)
    pub payload: String,
}

/// The properties after merging `incoming` into `existing`: where both are
/// objects, the members of both with `incoming` winning on shared keys;
/// otherwise `existing` unchanged.
pub open spec fn merged_properties(existing: serde_json::Value, incoming: serde_json::Value) -> Map<Seq<char>, serde_json::Value> {
    json_object_map(existing).union_prefer_right(json_object_map(incoming))
}

impl DeviceShadow {
    /// A shadow with no properties, updated now.
    pub fn new(product_key: String, device_id: String) -> (s: Self)
        ensures
            s.product_key == product_key,
            s.device_id == device_id,
            json_is_object(s.properties),
            json_object_map(s.properties).dom() == Set::<Seq<char>>::empty(),
            is_clock_millis(s.updated_at),
    {
        DeviceShadow { product_key, device_id, properties: empty_json_object(), updated_at: now_millis() }
    }

    /// Merges new properties into the shadow: new values override existing
    /// ones, keys not in `new_props` are retained. Nothing is merged unless
    /// both are JSON objects. The update time is set to now either way.
    pub fn merge_properties(&mut self, new_props: &serde_json::Value)
        ensures
            final(self).product_key == old(self).product_key,
            final(self).device_id == old(self).device_id,
            (json_is_object(old(self).properties) && json_is_object(*new_props)) ==> {
                &&& json_is_object(final(self).properties)
                &&& json_object_map(final(self).properties) == merged_properties(old(self).properties, *new_props)
            },
            !(json_is_object(old(self).properties) && json_is_object(*new_props)) ==>
                final(self).properties == old(self).properties,
            is_clock_millis(final(self).updated_at),
    {
        if is_json_object(&self.properties) {
            match json_object_entries(new_props) {
                Some(es) => {
                    let ghost old_map = json_object_map(self.properties);
                    let ghost inc = json_object_map(*new_props);
                    let mut i: usize = 0;
                    while i < es.len()
                        invariant
                            i <= es.len(),
                            json_is_object(self.properties),
                            self.product_key == old(self).product_key,
                            self.device_id == old(self).device_id,
                            forall|a: int, b: int| 0 <= a < b < es.len() ==> (#[trigger] es[a]).0@ != (#[trigger] es[b]).0@,
                            forall|a: int| 0 <= a < es.len() ==> inc.dom().contains((#[trigger] es[a]).0@)
                                && inc[es[a].0@] == es[a].1,
                            forall|k: Seq<char>| #[trigger] json_object_map(self.properties).dom().contains(k) <==>
                                (old_map.dom().contains(k) || exists|a: int| 0 <= a < i && es[a].0@ == k),
                            forall|k: Seq<char>| #[trigger] json_object_map(self.properties).dom().contains(k) ==>
                                json_object_map(self.properties)[k] == (if (exists|a: int| 0 <= a < i && es[a].0@ == k) {
                                    inc[k]
                                } else {
                                    old_map[k]
                                }),
                        decreases es.len() - i,
                    {
                        let key = es[i].0.clone();
                        let value = es[i].1.clone();
                        let ghost before = json_object_map(self.properties);
                        json_object_insert(&mut self.properties, key, value);
                        assert forall|k: Seq<char>| #[trigger] json_object_map(self.properties).dom().contains(k) <==>
                            (old_map.dom().contains(k) || exists|a: int| 0 <= a < i + 1 && es[a].0@ == k) by {
                            if k == es[i as int].0@ {
                                assert(exists|a: int| 0 <= a < i + 1 && es[a].0@ == k);
                            } else if exists|a: int| 0 <= a < i + 1 && es[a].0@ == k {
                                let a = choose|a: int| 0 <= a < i + 1 && es[a].0@ == k;
                                assert(a < i);
                            }
                        }
                        assert forall|k: Seq<char>| #[trigger] json_object_map(self.properties).dom().contains(k) implies
                            json_object_map(self.properties)[k] == (if (exists|a: int| 0 <= a < i + 1 && es[a].0@ == k) {
                                inc[k]
                            } else {
                                old_map[k]
                            }) by {
                            if k == es[i as int].0@ {
                                assert(exists|a: int| 0 <= a < i + 1 && es[a].0@ == k);
                            } else {
                                if exists|a: int| 0 <= a < i + 1 && es[a].0@ == k {
                                    let a = choose|a: int| 0 <= a < i + 1 && es[a].0@ == k;
                                    assert(a < i);
                                    assert(exists|a: int| 0 <= a < i && es[a].0@ == k);
                                } else {
                                    assert(!(exists|a: int| 0 <= a < i && es[a].0@ == k));
                                }
                            }
                        }
                        i = i + 1;
                    }
                    assert forall|k: Seq<char>| #[trigger] json_object_map(self.properties).dom().contains(k) <==>
                        merged_properties(old(self).properties, *new_props).dom().contains(k) by {
                        if inc.dom().contains(k) {
                            let a = choose|a: int| 0 <= a < es.len() && es[a].0@ == k;
                            assert(exists|a: int| 0 <= a < i && es[a].0@ == k);
                        }
                    }
                    assert forall|k: Seq<char>| #[trigger] json_object_map(self.properties).dom().contains(k) implies
                        json_object_map(self.properties)[k] == merged_properties(old(self).properties, *new_props)[k] by {
                        if inc.dom().contains(k) {
                            let a = choose|a: int| 0 <= a < es.len() && es[a].0@ == k;
                            assert(exists|a: int| 0 <= a < i && es[a].0@ == k);
                        }
                    }
                    assert(json_object_map(self.properties) =~= merged_properties(old(self).properties, *new_props));
                },
                None => {},
            }
        }
        self.updated_at = now_millis();
    }
}

/// Merging keeps every property the shadow had and every property reported:
/// a reported value wins, an unreported one is kept.
pub proof fn law_merge_overrides_and_retains(existing: serde_json::Value, incoming: serde_json::Value, k: Seq<char>)
    ensures
        json_object_map(incoming).dom().contains(k) ==> merged_properties(existing, incoming).dom().contains(k)
            && merged_properties(existing, incoming)[k] == json_object_map(incoming)[k],
        (json_object_map(existing).dom().contains(k) && !json_object_map(incoming).dom().contains(k)) ==>
            merged_properties(existing, incoming).dom().contains(k)
            && merged_properties(existing, incoming)[k] == json_object_map(existing)[k],
        merged_properties(existing, incoming).dom().contains(k) ==>
            (json_object_map(existing).dom().contains(k) || json_object_map(incoming).dom().contains(k)),
{
}

} // verus!
