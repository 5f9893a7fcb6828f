//! The result cache: entries expire a fixed time after they were stored and,
//! independently, after a time without reads; the store is bounded in size.
//! Entries are the encoded results, keyed by the query text. The store is a
//! `moka` cache; what the library relies on of it is stated on the trusted
//! functions below.
use moka::sync::Cache;
use std::time::Duration;
use vstd::prelude::*;

verus! {

/// Longest time to live or to idle that the store accepts, in seconds.
pub const MAX_EXPIRY_SECS: u64 = 31_536_000_000;

/// Size and expiry of a cache. Times are in seconds.
#[derive(Debug, Clone, Copy)]
pub struct CacheConfig {
    /// Largest number of entries held.
    pub max_capacity: u64,
    /// Time an entry lives after it was stored.
    pub ttl: u64,
    /// Time an entry lives after it was last read; `None` means `ttl`.
    pub tti: Option<u64>,
}

impl Default for CacheConfig {
    fn default() -> (r: Self)
        ensures
            r.max_capacity == 10_000,
            r.ttl == 300,
            r.tti == Some(60u64),
    {
        CacheConfig { max_capacity: 10_000, ttl: 300, tti: Some(60) }
    }
}

impl CacheConfig {
    /// Ten thousand entries, five minutes to live, one minute to idle.
    pub fn new() -> (r: Self)
        ensures
            r.max_capacity == 10_000,
            r.ttl == 300,
            r.tti == Some(60u64),
    {
        Self::default()
    }

    /// Sets the largest number of entries.
    pub fn max_capacity(self, capacity: u64) -> (r: Self)
        ensures
            r.max_capacity == capacity,
            r.ttl == self.ttl,
            r.tti == self.tti,
    {
        CacheConfig { max_capacity: capacity, ..self }
    }

    /// Sets the time to live, in seconds.
    pub fn ttl(self, secs: u64) -> (r: Self)
        ensures
            r.max_capacity == self.max_capacity,
            r.ttl == secs,
            r.tti == self.tti,
    {
        CacheConfig { ttl: secs, ..self }
    }

    /// Sets the time to idle, in seconds.
    pub fn tti(self, secs: u64) -> (r: Self)
        ensures
            r.max_capacity == self.max_capacity,
            r.ttl == self.ttl,
            r.tti == Some(secs),
    {
        CacheConfig { tti: Some(secs), ..self }
    }

    /// No caching: lookups always miss and stores do nothing.
    pub fn disabled() -> (r: Self)
        ensures
            r.max_capacity == 0,
            r.ttl == 0,
            r.tti is None,
    {
        CacheConfig { max_capacity: 0, ttl: 0, tti: None }
    }

    /// Whether a cache built from this configuration holds anything.
    pub open spec fn spec_enabled(&self) -> bool {
        self.max_capacity > 0 && self.ttl > 0
    }

    pub open spec fn acceptable(&self) -> bool {
        &&& self.ttl <= MAX_EXPIRY_SECS
        &&& match self.tti {
            Some(t) => t <= MAX_EXPIRY_SECS,
            None => true,
        }
    }
}

#[verifier::external_type_specification]
#[verifier::external_body]
#[verifier::reject_recursive_types(K)]
#[verifier::reject_recursive_types(V)]
#[verifier::reject_recursive_types(S)]
pub struct ExCache<K, V, S>(Cache<K, V, S>);

/// The content of an empty store.
pub open spec fn no_entries() -> Map<Seq<char>, Seq<u8>> {
    Map::empty()
}

/// What a query store may still hand out: for each key, the value stored
/// last since the key, or the whole store, was last invalidated. An entry
/// may be gone before that (expiry, eviction); no other value comes back.
pub uninterp spec fn stored_queries(c: Cache<String, Vec<u8>>) -> Map<Seq<char>, Seq<u8>>;

/// Relies on moka's `CacheBuilder` (`max_capacity`, `time_to_live`,
/// `time_to_idle`, `build`): a new cache is empty; `build` panics on an
/// expiry over a thousand years, which `requires` leaves out.
#[verifier::external_body]
fn new_query_store(max_capacity: u64, ttl: u64, tti: u64) -> (r: Cache<String, Vec<u8>>)
    requires
        ttl <= MAX_EXPIRY_SECS,
        tti <= MAX_EXPIRY_SECS,
    ensures
        stored_queries(r) == no_entries(),
{
    Cache::builder().max_capacity(max_capacity).time_to_live(Duration::from_secs(ttl)).time_to_idle(
        Duration::from_secs(tti),
    ).build()
}

/// Relies on moka's `Cache::get`: a clone of the value stored last under the
/// key, unless it was invalidated, expired or evicted.
#[verifier::external_body]
fn store_get(c: &Cache<String, Vec<u8>>, key: &str) -> (r: Option<Vec<u8>>)
    ensures
        r is Some ==> stored_queries(*c).contains_key(key@) && r.unwrap()@ == stored_queries(
            *c,
        )[key@],
{
    c.get(key)
}

/// Relies on moka's `Cache::insert`: the value replaces any earlier one under the key.
#[verifier::external_body]
fn store_insert(c: &mut Cache<String, Vec<u8>>, key: String, value: Vec<u8>)
    ensures
        stored_queries(*final(c)) == stored_queries(*old(c)).insert(key@, value@),
{
    c.insert(key, value)
}

/// Relies on moka's `Cache::invalidate`: the key's value is not handed out again.
#[verifier::external_body]
fn store_invalidate(c: &mut Cache<String, Vec<u8>>, key: &str)
    ensures
        stored_queries(*final(c)) == stored_queries(*old(c)).remove(key@),
{
    c.invalidate(key)
}

/// Relies on moka's `Cache::invalidate_all`: nothing stored before the call
/// is handed out after it.
#[verifier::external_body]
fn store_invalidate_all(c: &mut Cache<String, Vec<u8>>)
    ensures
        stored_queries(*final(c)) == no_entries(),
{
    c.invalidate_all()
}

/// Relies on moka's `Cache::entry_count`, an estimate with no promise.
#[verifier::external_body]
fn store_entry_count(c: &Cache<String, Vec<u8>>) -> (r: u64) {
    c.entry_count()
}

/// Relies on moka's `Cache::weighted_size`, an estimate with no promise.
#[verifier::external_body]
fn store_weighted_size(c: &Cache<String, Vec<u8>>) -> (r: u64) {
    c.weighted_size()
}

/// Whether `r` is an answer a lookup of `key` may give on a cache whose
/// content is `m`: a miss, or the value held for the key.
pub open spec fn lookup_allows(m: Map<Seq<char>, Seq<u8>>, key: Seq<char>, r: Option<Seq<u8>>) -> bool {
    match r {
        None => true,
        Some(v) => m.contains_key(key) && v == m[key],
    }
}

pub open spec fn opt_bytes(r: Option<Vec<u8>>) -> Option<Seq<u8>> {
    match r {
        Some(v) => Some(v@),
        None => None,
    }
}

/// Cache of query results, keyed by the query text.
pub struct QueryCache {
    cache: Cache<String, Vec<u8>>,
    enabled: bool,
}

/// Approximate occupancy of a cache.
#[derive(Debug, Clone)]
pub struct CacheStats {
    /// Number of entries held.
    pub entry_count: u64,
    /// Total weight of the entries held.
    pub weighted_size: u64,
}

impl View for QueryCache {
    type V = Map<Seq<char>, Seq<u8>>;

    /// The entries a lookup may hand out.
    closed spec fn view(&self) -> Map<Seq<char>, Seq<u8>> {
        stored_queries(self.cache)
    }
}

impl QueryCache {
    pub closed spec fn wf(&self) -> bool {
        !self.enabled ==> stored_queries(self.cache) == no_entries()
    }

    /// Whether lookups can hit.
    pub closed spec fn is_enabled(&self) -> bool {
        self.enabled
    }

    /// An empty cache configured by `config`; it holds nothing when the
    /// capacity or the time to live is zero.
    pub fn new(config: CacheConfig) -> (r: Self)
        requires
            config.acceptable(),
        ensures
            r.wf(),
            r.is_enabled() == config.spec_enabled(),
            r@ == no_entries(),
    {
        let enabled = config.max_capacity > 0 && config.ttl > 0;
        let tti = match config.tti {
            Some(t) => t,
            None => config.ttl,
        };
        QueryCache { cache: new_query_store(config.max_capacity, config.ttl, tti), enabled }
    }

    /// The cached result of `query`, if one is held: never a value other
    /// than the one stored last for it, and always a miss when disabled.
    pub fn get(&self, query: &str) -> (r: Option<Vec<u8>>)
        requires
            self.wf(),
        ensures
            lookup_allows(self@, query@, opt_bytes(r)),
            !self.is_enabled() ==> r is None,
    {
        if !self.enabled {
            return None;
        }
        store_get(&self.cache, query)
    }

    /// Stores `data` as the result of `query`; does nothing when disabled.
    pub fn set(&mut self, query: &str, data: Vec<u8>)
        requires
            old(self).wf(),
        ensures
            final(self).wf(),
            final(self).is_enabled() == old(self).is_enabled(),
            final(self)@ == (if old(self).is_enabled() {
                old(self)@.insert(query@, data@)
            } else {
                old(self)@
            }),
    {
        if !self.enabled {
            return;
        }
        store_insert(&mut self.cache, query.to_owned(), data);
    }

    /// Drops the cached result of `query`.
    pub fn invalidate(&mut self, query: &str)
        requires
            old(self).wf(),
        ensures
            final(self).wf(),
            final(self).is_enabled() == old(self).is_enabled(),
            final(self)@ == old(self)@.remove(query@),
    {
        if !self.enabled {
            assert(old(self)@.remove(query@) =~= old(self)@);
            return;
        }
        store_invalidate(&mut self.cache, query);
    }

    /// Drops every cached result.
    pub fn clear(&mut self)
        requires
            old(self).wf(),
        ensures
            final(self).wf(),
            final(self).is_enabled() == old(self).is_enabled(),
            final(self)@ == no_entries(),
    {
        if !self.enabled {
            return;
        }
        store_invalidate_all(&mut self.cache);
    }

    /// Approximate number and weight of the entries held.
    pub fn stats(&self) -> (r: CacheStats) {
        CacheStats {
            entry_count: store_entry_count(&self.cache),
            weighted_size: store_weighted_size(&self.cache),
        }
    }
}

/// What a record store may still hand out, keyed by object type and ID;
/// as for the query store, an entry may be gone early but no other value
/// comes back.
pub uninterp spec fn stored_records(c: Cache<(String, String), Vec<u8>>) -> Map<
    (Seq<char>, Seq<char>),
    Seq<u8>,
>;

/// Whether a record store was built to accept invalidation by predicate.
pub uninterp spec fn accepts_predicates(c: Cache<(String, String), Vec<u8>>) -> bool;

pub open spec fn no_records() -> Map<(Seq<char>, Seq<char>), Seq<u8>> {
    Map::empty()
}

/// The entries of `m` whose object type is not `sobject`.
pub open spec fn without_sobject(m: Map<(Seq<char>, Seq<char>), Seq<u8>>, sobject: Seq<char>) -> Map<
    (Seq<char>, Seq<char>),
    Seq<u8>,
> {
    m.restrict(m.dom().filter(|k: (Seq<char>, Seq<char>)| k.0 != sobject))
}

/// Relies on moka's `CacheBuilder` with `support_invalidation_closures`: a
/// new cache is empty and accepts invalidation by predicate; `build`
/// panics on an expiry over a thousand years, which `requires` leaves out.
#[verifier::external_body]
fn new_record_store(max_capacity: u64, ttl: u64, tti: u64) -> (r: Cache<(String, String), Vec<u8>>)
    requires
        ttl <= MAX_EXPIRY_SECS,
        tti <= MAX_EXPIRY_SECS,
    ensures
        stored_records(r) == no_records(),
        accepts_predicates(r),
{
    Cache::builder().max_capacity(max_capacity).time_to_live(Duration::from_secs(ttl)).time_to_idle(
        Duration::from_secs(tti),
    ).support_invalidation_closures().build()
}

/// Relies on moka's `Cache::get`: a clone of the value stored last under the
/// key, unless it was invalidated, expired or evicted.
#[verifier::external_body]
fn record_get(c: &Cache<(String, String), Vec<u8>>, key: &(String, String)) -> (r: Option<Vec<u8>>)
    ensures
        r is Some ==> stored_records(*c).contains_key((key.0@, key.1@)) && r.unwrap()@
            == stored_records(*c)[(key.0@, key.1@)],
{
    c.get(key)
}

/// Relies on moka's `Cache::insert`: the value replaces any earlier one under the key.
#[verifier::external_body]
fn record_insert(c: &mut Cache<(String, String), Vec<u8>>, key: (String, String), value: Vec<u8>)
    ensures
        stored_records(*final(c)) == stored_records(*old(c)).insert((key.0@, key.1@), value@),
        accepts_predicates(*final(c)) == accepts_predicates(*old(c)),
{
    c.insert(key, value)
}

/// Relies on moka's `Cache::invalidate`: the key's value is not handed out again.
#[verifier::external_body]
fn record_invalidate(c: &mut Cache<(String, String), Vec<u8>>, key: &(String, String))
    ensures
        stored_records(*final(c)) == stored_records(*old(c)).remove((key.0@, key.1@)),
        accepts_predicates(*final(c)) == accepts_predicates(*old(c)),
{
    c.invalidate(key)
}

fn same_text(a: &String, b: &String) -> (r: bool)
    ensures
        r == (a@ == b@),
{
    *a == *b
}

/// Relies on moka's `Cache::invalidate_entries_if`: on a cache that accepts
/// predicates, no entry stored before the call whose key matches is handed
/// out after it; otherwise it fails and nothing changes.
#[verifier::external_body]
fn record_invalidate_sobject(c: &mut Cache<(String, String), Vec<u8>>, sobject: String) -> (r: bool)
    ensures
        r == accepts_predicates(*old(c)),
        r ==> stored_records(*final(c)) == without_sobject(stored_records(*old(c)), sobject@),
        !r ==> stored_records(*final(c)) == stored_records(*old(c)),
        accepts_predicates(*final(c)) == accepts_predicates(*old(c)),
{
    c.invalidate_entries_if(move |k: &(String, String), _v: &Vec<u8>| same_text(&k.0, &sobject)).is_ok()
}

/// Cache of single records, keyed by object type and ID.
pub struct RecordCache {
    cache: Cache<(String, String), Vec<u8>>,
    enabled: bool,
}

impl View for RecordCache {
    type V = Map<(Seq<char>, Seq<char>), Seq<u8>>;

    /// The entries a lookup may hand out.
    closed spec fn view(&self) -> Map<(Seq<char>, Seq<char>), Seq<u8>> {
        stored_records(self.cache)
    }
}

/// Whether `r` is an answer a lookup of `key` may give on a record cache
/// whose content is `m`.
pub open spec fn record_lookup_allows(
    m: Map<(Seq<char>, Seq<char>), Seq<u8>>,
    key: (Seq<char>, Seq<char>),
    r: Option<Seq<u8>>,
) -> bool {
    match r {
        None => true,
        Some(v) => m.contains_key(key) && v == m[key],
    }
}

fn record_key(sobject: &str, id: &str) -> (r: (String, String))
    ensures
        r.0@ == sobject@,
        r.1@ == id@,
{
    (sobject.to_owned(), id.to_owned())
}

impl RecordCache {
    pub closed spec fn wf(&self) -> bool {
        &&& accepts_predicates(self.cache)
        &&& !self.enabled ==> stored_records(self.cache) == no_records()
    }

    /// Whether lookups can hit.
    pub closed spec fn is_enabled(&self) -> bool {
        self.enabled
    }

    /// An empty record cache configured by `config`; it holds nothing when
    /// the capacity or the time to live is zero.
    pub fn new(config: CacheConfig) -> (r: Self)
        requires
            config.acceptable(),
        ensures
            r.wf(),
            r.is_enabled() == config.spec_enabled(),
            r@ == no_records(),
    {
        let enabled = config.max_capacity > 0 && config.ttl > 0;
        let tti = match config.tti {
            Some(t) => t,
            None => config.ttl,
        };
        RecordCache { cache: new_record_store(config.max_capacity, config.ttl, tti), enabled }
    }

    /// The cached record `id` of `sobject`, if one is held.
    pub fn get(&self, sobject: &str, id: &str) -> (r: Option<Vec<u8>>)
        requires
            self.wf(),
        ensures
            record_lookup_allows(self@, (sobject@, id@), opt_bytes(r)),
            !self.is_enabled() ==> r is None,
    {
        if !self.enabled {
            return None;
        }
        record_get(&self.cache, &record_key(sobject, id))
    }

    /// Stores `data` as record `id` of `sobject`; does nothing when disabled.
    pub fn set(&mut self, sobject: &str, id: &str, data: Vec<u8>)
        requires
            old(self).wf(),
        ensures
            final(self).wf(),
            final(self).is_enabled() == old(self).is_enabled(),
            final(self)@ == (if old(self).is_enabled() {
                old(self)@.insert((sobject@, id@), data@)
            } else {
                old(self)@
            }),
    {
        if !self.enabled {
            return;
        }
        record_insert(&mut self.cache, record_key(sobject, id), data);
    }

    /// Drops the cached record `id` of `sobject`.
    pub fn invalidate(&mut self, sobject: &str, id: &str)
        requires
            old(self).wf(),
        ensures
            final(self).wf(),
            final(self).is_enabled() == old(self).is_enabled(),
            final(self)@ == old(self)@.remove((sobject@, id@)),
    {
        if !self.enabled {
            assert(old(self)@.remove((sobject@, id@)) =~= old(self)@);
            return;
        }
        record_invalidate(&mut self.cache, &record_key(sobject, id));
    }

    /// Drops every cached record of `sobject`.
    pub fn invalidate_sobject(&mut self, sobject: &str)
        requires
            old(self).wf(),
        ensures
            final(self).wf(),
            final(self).is_enabled() == old(self).is_enabled(),
            final(self)@ == without_sobject(old(self)@, sobject@),
    {
        if !self.enabled {
            assert(without_sobject(old(self)@, sobject@) =~= old(self)@);
            return;
        }
        record_invalidate_sobject(&mut self.cache, sobject.to_owned());
    }
}

/// Store then look up: a lookup of a key just stored gives the stored value
/// or a miss, never another value.
pub proof fn lemma_lookup_after_store(
    m: Map<Seq<char>, Seq<u8>>,
    key: Seq<char>,
    v: Seq<u8>,
    r: Option<Seq<u8>>,
)
    requires
        lookup_allows(m.insert(key, v), key, r),
    ensures
        r is None || r == Some(v),
{
}

/// After the cache is cleared (as every successful write does), every
/// lookup misses, whatever was stored before.
pub proof fn lemma_lookup_after_clear(key: Seq<char>, r: Option<Seq<u8>>)
    requires
        lookup_allows(no_entries(), key, r),
    ensures
        r is None,
{
}

} // verus!
