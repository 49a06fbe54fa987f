//! The channel-subscription registry: the concurrent set of opted-in
//! channels, each mapped to its delivery identity. Toggles are infrequent
//! and immediately visible.

use vstd::prelude::*;

use crate::webhook::TranslateHook;
use dashmap::DashMap;

verus! {

/// A subscribed channel's state: the delivery identity that posts its
/// mirrors.
#[derive(Clone, Copy, PartialEq, Eq, Structural, Debug)]
pub struct Channel {
    pub webhook: TranslateHook,
}

impl Channel {
    pub fn new(webhook: TranslateHook) -> (c: Channel)
        ensures
            c.webhook == webhook,
    {
        Channel { webhook }
    }
}

/// What the backing concurrent map holds, as a mathematical map from
/// channel id to its subscription state.
pub uninterp spec fn registry_contents(m: DashMap<u64, Channel>) -> Map<u64, Channel>;

/// The contents of a registry with no subscriptions.
pub open spec fn no_subscriptions() -> Map<u64, Channel> {
    Map::empty()
}

/// The subscription registry.
pub struct ChannelRegistry {
    pub table: DashMap<u64, Channel>,
}

impl ChannelRegistry {
    pub open spec fn contents(self) -> Map<u64, Channel> {
        registry_contents(self.table)
    }

    /// Relies on dashmap::DashMap::new: a fresh map holds nothing.
    #[verifier::external_body]
    pub fn new() -> (r: ChannelRegistry)
        ensures
            registry_contents(r.table) == no_subscriptions(),
    {
        ChannelRegistry { table: DashMap::new() }
    }

    /// Relies on dashmap::DashMap::insert: binds the key to the value,
    /// replacing any prior binding for it and touching no other.
    #[verifier::external_body]
    pub fn insert(&mut self, channel_id: u64, c: Channel)
        ensures
            registry_contents(final(self).table) == registry_contents(old(self).table).insert(
                channel_id,
                c,
            ),
    {
        self.table.insert(channel_id, c);
    }

    /// Relies on dashmap::DashMap::remove: removes the binding for the key
    /// if it existed.
    #[verifier::external_body]
    pub fn remove(&mut self, channel_id: u64)
        ensures
            registry_contents(final(self).table) == registry_contents(old(self).table).remove(
                channel_id,
            ),
    {
        self.table.remove(&channel_id);
    }

    /// Relies on dashmap::DashMap::contains_key.
    #[verifier::external_body]
    pub fn contains(&self, channel_id: u64) -> (r: bool)
        ensures
            r == registry_contents(self.table).dom().contains(channel_id),
    {
        self.table.contains_key(&channel_id)
    }

    /// Relies on dashmap::DashMap::get: returns the value bound to the
    /// key, if any, copied out of the map.
    #[verifier::external_body]
    pub fn get(&self, channel_id: u64) -> (r: Option<Channel>)
        ensures
            r == (if registry_contents(self.table).dom().contains(channel_id) {
                Some(registry_contents(self.table)[channel_id])
            } else {
                None::<Channel>
            }),
    {
        self.table.get(&channel_id).map(|entry| *entry.value())
    }
}

} // verus!
