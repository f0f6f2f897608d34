//! An in-memory cache of named SQL statements with hit counts.
use vstd::prelude::*;
use std::time::Instant;

use crate::keyed::KeyedMap;
use crate::time::instant_now;

verus! {

/// A cached statement: its SQL, how often it was requested, and when last.
pub struct CachedQuery {
    pub sql: String,
    pub hits: u64,
    pub last_used: Instant,
}

/// What the cache holds for a name: the stored SQL and the hit count.
pub struct CacheEntryView {
    pub sql: Seq<char>,
    pub hits: nat,
}

/// The hit count that `m` records for `name`, 0 when it holds none.
pub open spec fn hits_in(m: Map<Seq<char>, CacheEntryView>, name: Seq<char>) -> nat {
    if m.contains_key(name) {
        m[name].hits
    } else {
        0
    }
}

/// The cache contents after one request of `name` with `sql`: the SQL of
/// the first registration stays, and the hit count grows by one.
pub open spec fn after_request(m: Map<Seq<char>, CacheEntryView>, name: Seq<char>, sql: Seq<char>) -> Map<
    Seq<char>,
    CacheEntryView,
> {
    m.insert(
        name,
        CacheEntryView {
            sql: if m.contains_key(name) {
                m[name].sql
            } else {
                sql
            },
            hits: hits_in(m, name) + 1,
        },
    )
}

/// The cache contents after requests of `name` with each of `sqls`, in order.
pub open spec fn after_requests(
    m: Map<Seq<char>, CacheEntryView>,
    name: Seq<char>,
    sqls: Seq<Seq<char>>,
) -> Map<Seq<char>, CacheEntryView>
    decreases sqls.len(),
{
    if sqls.len() == 0 {
        m
    } else {
        after_request(after_requests(m, name, sqls.drop_last()), name, sqls.last())
    }
}

/// After any number of requests of one name, its hit count has grown by
/// that number, and it holds the SQL of its first registration: the one it
/// held before, or that of the first request.
pub proof fn lemma_requests_count_hits(
    m: Map<Seq<char>, CacheEntryView>,
    name: Seq<char>,
    sqls: Seq<Seq<char>>,
)
    requires
        sqls.len() > 0,
    ensures
        after_requests(m, name, sqls).contains_key(name),
        hits_in(after_requests(m, name, sqls), name) == hits_in(m, name) + sqls.len(),
        after_requests(m, name, sqls)[name].sql == if m.contains_key(name) {
            m[name].sql
        } else {
            sqls[0]
        },
    decreases sqls.len(),
{
    if sqls.len() > 1 {
        lemma_requests_count_hits(m, name, sqls.drop_last());
        assert(sqls.drop_last()[0] == sqls[0]);
    } else {
        assert(after_requests(m, name, sqls.drop_last()) == m);
    }
}

/// A request of one name leaves every other name as it was.
pub proof fn lemma_request_keeps_other_names(
    m: Map<Seq<char>, CacheEntryView>,
    name: Seq<char>,
    sql: Seq<char>,
    other: Seq<char>,
)
    requires
        other != name,
    ensures
        after_request(m, name, sql).contains_key(other) == m.contains_key(other),
        m.contains_key(other) ==> after_request(m, name, sql)[other] == m[other],
{
}

/// What the cache holds for an entry.
pub open spec fn entry_view(e: CachedQuery) -> CacheEntryView {
    CacheEntryView { sql: e.sql@, hits: e.hits as nat }
}

/// In-memory prepared-statement cache keyed by a logical query name.
pub struct QueryCache {
    entries: KeyedMap<CachedQuery>,
}

impl View for QueryCache {
    type V = Map<Seq<char>, CacheEntryView>;

    closed spec fn view(&self) -> Map<Seq<char>, CacheEntryView> {
        Map::new(|k: Seq<char>| self.entries@.contains_key(k), |k: Seq<char>| entry_view(self.entries@[k]))
    }
}

impl QueryCache {
    /// The hit count recorded for `name`, 0 when it was never requested.
    pub open spec fn hits_of(&self, name: Seq<char>) -> nat {
        hits_in(self@, name)
    }

    /// An empty cache.
    pub fn new() -> (c: QueryCache)
        ensures
            c@ == Map::<Seq<char>, CacheEntryView>::empty(),
    {
        let c = QueryCache { entries: KeyedMap::new() };
        assert(c@ =~= Map::<Seq<char>, CacheEntryView>::empty());
        c
    }

    /// Registers `name` with `sql` unless it is cached already, counts one
    /// hit for it and records the time; returns the SQL stored for `name`,
    /// which is that of its first registration.
    pub fn get_or_insert(&mut self, name: &str, sql: &str) -> (stored: String)
        requires
            old(self).hits_of(name@) < u64::MAX,
        ensures
            final(self)@ == after_request(old(self)@, name@, sql@),
            stored@ == final(self)@[name@].sql,
    {
        let now = instant_now();
        let (stored, hits) = match self.entries.get(name) {
            Some(e) => (e.sql.clone(), e.hits),
            None => (String::from_str(sql), 0),
        };
        let entry = CachedQuery { sql: stored.clone(), hits: hits + 1, last_used: now };
        self.entries.insert(name, entry);
        assert(self@ =~= after_request(old(self)@, name@, sql@));
        stored
    }

    /// The number of hits recorded for `name`, 0 when it was never requested.
    pub fn hit_count(&self, name: &str) -> (hits: u64)
        ensures
            hits == self.hits_of(name@),
    {
        match self.entries.get(name) {
            Some(e) => e.hits,
            None => 0,
        }
    }
}

impl Default for QueryCache {
    fn default() -> (c: QueryCache)
        ensures
            c@ == Map::<Seq<char>, CacheEntryView>::empty(),
    {
        QueryCache::new()
    }
}

} // verus!
