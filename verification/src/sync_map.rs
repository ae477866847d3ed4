//! Shared-map storage behind the registry.
//!
//! The registry keeps its two tables in concurrent hash maps so that
//! many dispatchers can read while registrars write. The maps are
//! held here behind trusted wrappers: each wrapper's contract states,
//! over the named contents of the map, what the wrapped call does.

use vstd::prelude::*;

verus! {

/// Contents of a [`KeyIndexMap`]: canonical key string to handler slot.
pub uninterp spec fn key_index_view(m: KeyIndexMap) -> Map<Seq<char>, usize>;

/// Contents of a [`FeatureTable`]: provider name to the feature names
/// registered for it, in registration order.
pub uninterp spec fn feature_table_view(m: FeatureTable) -> Map<Seq<char>, Seq<Seq<char>>>;

/// The features recorded for a provider, or the empty sequence if the
/// provider has never registered.
pub open spec fn features_or_empty(t: Map<Seq<char>, Seq<Seq<char>>>, p: Seq<char>) -> Seq<
    Seq<char>,
> {
    if t.dom().contains(p) {
        t[p]
    } else {
        Seq::empty()
    }
}

/// An empty key-index map.
pub open spec fn empty_key_index() -> Map<Seq<char>, usize> {
    Map::empty()
}

/// An empty feature table.
pub open spec fn empty_feature_table() -> Map<Seq<char>, Seq<Seq<char>>> {
    Map::empty()
}

/// Concurrent map from canonical key strings to slots in the
/// registry's handler store.
#[verifier::external_body]
pub struct KeyIndexMap {
    inner: dashmap::DashMap<String, usize>,
}

impl KeyIndexMap {
    /// Relies on dashmap::DashMap::new: the new map is empty.
    #[verifier::external_body]
    pub fn new() -> (r: KeyIndexMap)
        ensures
            key_index_view(r) == empty_key_index(),
    {
        KeyIndexMap { inner: dashmap::DashMap::new() }
    }

    /// Relies on dashmap::DashMap::insert: the key now maps to the
    /// given slot; every other binding is unchanged.
    #[verifier::external_body]
    pub fn insert(&mut self, key: String, slot: usize)
        ensures
            key_index_view(*final(self)) == key_index_view(*old(self)).insert(key@, slot),
    {
        self.inner.insert(key, slot);
    }

    /// Relies on dashmap::DashMap::get: returns the slot bound to the
    /// key, or nothing if the key is absent.
    #[verifier::external_body]
    pub fn get(&self, key: &str) -> (r: Option<usize>)
        ensures
            match r {
                Some(slot) => key_index_view(*self).dom().contains(key@)
                    && key_index_view(*self)[key@] == slot,
                None => !key_index_view(*self).dom().contains(key@),
            },
    {
        self.inner.get(key).map(|entry| *entry)
    }

    /// Relies on dashmap::DashMap::iter: yields every key exactly
    /// once, in an order the map does not specify.
    #[verifier::external_body]
    pub fn keys(&self) -> (r: Vec<String>)
        ensures
            r.deep_view().to_set() == key_index_view(*self).dom(),
            r.deep_view().no_duplicates(),
    {
        self.inner.iter().map(|entry| entry.key().clone()).collect()
    }
}

/// Concurrent map from provider names to the feature names they have
/// registered handlers under.
#[verifier::external_body]
pub struct FeatureTable {
    inner: dashmap::DashMap<String, Vec<String>>,
}

impl FeatureTable {
    /// Relies on dashmap::DashMap::new: the new map is empty.
    #[verifier::external_body]
    pub fn new() -> (r: FeatureTable)
        ensures
            feature_table_view(r) == empty_feature_table(),
    {
        FeatureTable { inner: dashmap::DashMap::new() }
    }

    /// Relies on dashmap::DashMap::entry with Entry::or_default and
    /// Vec::push: appends the feature to the provider's list, starting
    /// from the empty list for a provider not seen before.
    #[verifier::external_body]
    pub fn push(&mut self, provider: &str, feature: String)
        ensures
            feature_table_view(*final(self)) == feature_table_view(*old(self)).insert(
                provider@,
                features_or_empty(feature_table_view(*old(self)), provider@).push(feature@),
            ),
    {
        self.inner.entry(provider.to_owned()).or_default().push(feature);
    }

    /// Relies on dashmap::DashMap::get and Vec::clone: returns the
    /// provider's feature list as recorded, or an empty list.
    #[verifier::external_body]
    pub fn get(&self, provider: &str) -> (r: Vec<String>)
        ensures
            r.deep_view() == features_or_empty(feature_table_view(*self), provider@),
    {
        self.inner.get(provider).map(|entry| entry.clone()).unwrap_or_default()
    }
}

} // verus!
