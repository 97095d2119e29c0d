//! The nicknames that were read, kept per window for a limited time.
//!
//! The cache maps a window handle to the last nickname resolved for it. It
//! knows nothing of time: an entry carries the moment at which it was
//! resolved, and whoever reads it decides whether it is still fresh.

use std::collections::HashMap;
use vstd::prelude::*;

verus! {

/// How long an entry stays fresh, in seconds.
pub const NICK_TTL_SECONDS: u64 = 300;

/// What was last resolved for a window.
pub struct NickCacheEntry {
    /// The nickname.
    pub nick: String,
    /// When it was resolved, in seconds since the epoch.
    pub timestamp: u64,
    /// The hash of the picture it was read from.
    pub img_hash: String,
    /// How sure the reader was, as the bits of a double between zero and one.
    pub confidence_bits: u64,
}

impl Clone for NickCacheEntry {
    fn clone(&self) -> (copy: Self)
        ensures
            copy == *self,
    {
        NickCacheEntry {
            nick: self.nick.clone(),
            timestamp: self.timestamp,
            img_hash: self.img_hash.clone(),
            confidence_bits: self.confidence_bits,
        }
    }
}

impl NickCacheEntry {
    /// The entry is fresh at `now`: less than the time to live has passed
    /// since it was resolved.
    pub open spec fn is_fresh(self, now: u64) -> bool {
        now - self.timestamp < NICK_TTL_SECONDS
    }

    /// Whether the entry is fresh at `now`.
    pub fn fresh_at(&self, now: u64) -> (fresh: bool)
        ensures
            fresh == self.is_fresh(now),
    {
        now < self.timestamp || now - self.timestamp < NICK_TTL_SECONDS
    }
}

/// The nickname that a lookup yields without a new capture: that of the
/// entry for `handle`, if there is one, it is fresh at `now` and no new
/// capture is forced.
pub open spec fn cached_nick(
    entries: Map<u32, NickCacheEntry>,
    handle: u32,
    now: u64,
    force_new_capture: bool,
) -> Option<Seq<char>> {
    if !force_new_capture && entries.contains_key(handle) && entries[handle].is_fresh(now) {
        Some(entries[handle].nick@)
    } else {
        None
    }
}

/// The cache: at most one entry for a handle, the last one written.
pub struct NickCache {
    entries: HashMap<u32, NickCacheEntry>,
}

impl NickCache {
    /// The entries, by handle.
    pub closed spec fn view(self) -> Map<u32, NickCacheEntry> {
        self.entries@
    }

    /// A cache without entries.
    pub fn new() -> (cache: Self)
        ensures
            cache@ == Map::<u32, NickCacheEntry>::empty(),
    {
        NickCache { entries: HashMap::new() }
    }

    /// The entry for `handle`, whatever its age.
    pub fn get(&self, handle: u32) -> (entry: Option<NickCacheEntry>)
        ensures
            entry == (if self@.contains_key(handle) {
                Some(self@[handle])
            } else {
                None
            }),
    {
        match self.entries.get(&handle) {
            Some(entry) => Some(entry.clone()),
            None => None,
        }
    }

    /// Writes `entry` for `handle`. What stood there is overwritten, never
    /// merged; no other handle is touched.
    pub fn put(&mut self, handle: u32, entry: NickCacheEntry)
        ensures
            final(self)@ == old(self)@.insert(handle, entry),
    {
        self.entries.insert(handle, entry);
    }

    /// Removes every entry.
    pub fn clear(&mut self) -> (done: bool)
        ensures
            done,
            final(self)@ == Map::<u32, NickCacheEntry>::empty(),
    {
        self.entries.clear();
        true
    }

    /// The nickname to use for `handle` at `now` without a new capture.
    pub fn lookup(&self, handle: u32, now: u64, force_new_capture: bool) -> (nick: Option<String>)
        ensures
            nick is Some == cached_nick(self@, handle, now, force_new_capture) is Some,
            nick matches Some(found) ==> cached_nick(self@, handle, now, force_new_capture)
                == Some(found@),
    {
        if force_new_capture {
            return None;
        }
        match self.entries.get(&handle) {
            Some(entry) => {
                if entry.fresh_at(now) {
                    Some(entry.nick.clone())
                } else {
                    None
                }
            },
            None => None,
        }
    }
}

/// Empties the cache; the answer says that it was done.
pub fn clear_nick_cache(cache: &mut NickCache) -> (done: bool)
    ensures
        done,
        final(cache)@ == Map::<u32, NickCacheEntry>::empty(),
{
    cache.clear()
}

/// An entry written at its own `timestamp` is used for the next 299 seconds
/// and no longer: a lookup yields its nickname as long as less than the time
/// to live has passed, yields nothing from then on, and yields nothing at any
/// time when a new capture is forced.
pub proof fn lemma_entry_lives_for_ttl(
    entries: Map<u32, NickCacheEntry>,
    handle: u32,
    entry: NickCacheEntry,
    now: u64,
    force_new_capture: bool,
)
    ensures
        cached_nick(entries.insert(handle, entry), handle, now, force_new_capture) == (if
            !force_new_capture && now - entry.timestamp < NICK_TTL_SECONDS {
            Some(entry.nick@)
        } else {
            None
        }),
        now - entry.timestamp <= 299 ==> cached_nick(
            entries.insert(handle, entry),
            handle,
            now,
            false,
        ) == Some(entry.nick@),
        now - entry.timestamp >= 300 ==> cached_nick(
            entries.insert(handle, entry),
            handle,
            now,
            false,
        ) is None,
        cached_nick(entries.insert(handle, entry), handle, now, true) is None,
{
}

/// Writing for one handle changes no lookup for another.
pub proof fn lemma_put_leaves_others(
    entries: Map<u32, NickCacheEntry>,
    handle: u32,
    entry: NickCacheEntry,
    other: u32,
    now: u64,
    force_new_capture: bool,
)
    requires
        other != handle,
    ensures
        cached_nick(entries.insert(handle, entry), other, now, force_new_capture) == cached_nick(
            entries,
            other,
            now,
            force_new_capture,
        ),
{
}

/// In an empty cache every lookup is a miss, whatever the handle, the time
/// and the flag: so it is after `clear`, whatever the cache held before.
pub proof fn lemma_cleared_cache_misses(handle: u32, now: u64, force_new_capture: bool)
    ensures
        cached_nick(Map::<u32, NickCacheEntry>::empty(), handle, now, force_new_capture) is None,
{
}

} // verus!
