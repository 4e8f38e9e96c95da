use vstd::prelude::*;

use crate::fingerprint::{Fingerprint, FingerprintView};

verus! {

/// The encoded audio kept for each fingerprint whose audio was cached.
///
/// Backed by `hashbrown::HashMap`, keyed by the fingerprint; its contents are
/// `entries`.
#[verifier::external_body]
pub struct AudioCache {
    map: hashbrown::HashMap<Fingerprint, Vec<u8>>,
}

/// What the cache holds: for each fingerprint, the bytes of its encoded audio.
pub uninterp spec fn entries(c: AudioCache) -> Map<FingerprintView, Seq<u8>>;

/// The contents of a cache that holds nothing.
pub open spec fn no_entries() -> Map<FingerprintView, Seq<u8>> {
    Map::empty()
}

impl AudioCache {
    /// Relies on `hashbrown::HashMap::new`: the map starts empty.
    #[verifier::external_body]
    fn empty() -> (r: AudioCache)
        ensures
            entries(r) == no_entries(),
    {
        AudioCache { map: hashbrown::HashMap::new() }
    }

    /// Relies on `hashbrown::HashMap::get`: the value stored under a key equal
    /// to `key` (derived `Eq` and `Hash` compare all fields), copied out.
    #[verifier::external_body]
    fn map_get(&self, key: &Fingerprint) -> (r: Option<Vec<u8>>)
        ensures
            entries(*self).contains_key(key@) <==> r is Some,
            r matches Some(v) ==> v@ == entries(*self)[key@],
    {
        self.map.get(key).cloned()
    }

    /// Relies on `hashbrown::HashMap::insert`: the value under `key` becomes
    /// `value`, replacing any earlier one; other keys keep theirs.
    #[verifier::external_body]
    fn map_insert(&mut self, key: Fingerprint, value: Vec<u8>)
        ensures
            entries(*final(self)) == entries(*old(self)).insert(key@, value@),
    {
        self.map.insert(key, value);
    }

    /// Relies on `hashbrown::HashMap::len`: the number of keys held.
    #[verifier::external_body]
    fn map_len(&self) -> (r: usize)
        ensures
            r == entries(*self).dom().len(),
    {
        self.map.len()
    }

    /// A cache that holds nothing.
    pub fn new() -> (r: AudioCache)
        ensures
            entries(r) == no_entries(),
            entries(r).dom().finite(),
    {
        AudioCache::empty()
    }

    /// The encoded audio kept for `key`, if any; the cache is only read.
    pub fn lookup(&self, key: &Fingerprint) -> (r: Option<Vec<u8>>)
        ensures
            entries(*self).contains_key(key@) <==> r is Some,
            r matches Some(v) ==> v@ == entries(*self)[key@],
    {
        self.map_get(key)
    }

    /// Keeps `value` as the encoded audio of `key`, replacing any earlier one.
    pub fn insert(&mut self, key: Fingerprint, value: Vec<u8>)
        ensures
            entries(*final(self)) == entries(*old(self)).insert(key@, value@),
            entries(*old(self)).dom().finite() ==> entries(*final(self)).dom().finite(),
    {
        self.map_insert(key, value)
    }

    /// How many fingerprints have audio kept.
    pub fn len(&self) -> (r: usize)
        ensures
            r == entries(*self).dom().len(),
    {
        self.map_len()
    }
}

} // verus!
