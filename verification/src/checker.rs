//! The reputation cache and the lookup protocol against the external
//! IP-quality service.
//!
//! The cache maps an IP address to the last reputation verdict the
//! service returned for it. A lookup is split into two steps so that no
//! claim over the shared cache is ever held while the outbound call is in
//! flight: `get` decides under read access whether the cache already
//! answers, and `settle` records the outcome of an outbound call made in
//! between. Two concurrent lookups for the same uncached IP may therefore
//! both miss and both call the service — an accepted inefficiency; the
//! final cached value is the same either way.

use vstd::prelude::*;
use vstd::string::StringExecFns;

use crate::models::{IpQualityApiResponse, LookupError, ResponseView};

verus! {

struct CacheEntry {
    ip: String,
    result: IpQualityApiResponse,
}

/// Concurrency-safe (when shared behind a reader/writer lock) mapping
/// from IP address to its last-known reputation result, together with the
/// API key every outbound request must carry.
pub struct IpChecker {
    api_key: String,
    cache: Vec<CacheEntry>,
}

/// What one `get` decided: either the cache already answers, or the
/// caller must fetch the given URL and hand the outcome to `settle`.
#[derive(Debug)]
pub enum LookupStep {
    /// The IP was already cached; no outbound request may be made.
    Hit(IpQualityApiResponse),
    /// The IP is uncached; the payload is the exact request URL to fetch.
    Miss(String),
}

/// The full URL of one reputation query: endpoint, API key and IP in the
/// path, and the fixed query parameters the tool always sends.
pub open spec fn lookup_url_view(api_key: Seq<char>, ip: Seq<char>) -> Seq<char> {
    "https://www.ipqualityscore.com/api/json/ip/"@ + api_key + "/"@ + ip
        + "?strictness=1&allow_public_access_points=true&lighter_penalties=true&mobile=true"@
}

spec fn cache_map(entries: Seq<CacheEntry>) -> Map<Seq<char>, ResponseView>
    decreases entries.len(),
{
    if entries.len() == 0 {
        Map::empty()
    } else {
        cache_map(entries.drop_last()).insert(entries.last().ip@, entries.last().result@)
    }
}

spec fn distinct_keys(entries: Seq<CacheEntry>) -> bool {
    forall|i: int, j: int|
        0 <= i < j < entries.len() ==> (#[trigger] entries[i]).ip@ != (#[trigger] entries[j]).ip@
}

impl View for IpChecker {
    type V = Map<Seq<char>, ResponseView>;

    closed spec fn view(&self) -> Map<Seq<char>, ResponseView> {
        cache_map(self.cache@)
    }
}

proof fn lemma_cache_map_contains(s: Seq<CacheEntry>, k: Seq<char>)
    ensures
        cache_map(s).contains_key(k) <==> exists|i: int|
            0 <= i < s.len() && (#[trigger] s[i]).ip@ == k,
    decreases s.len(),
{
    if s.len() > 0 {
        lemma_cache_map_contains(s.drop_last(), k);
        if s.last().ip@ == k {
            assert(s[s.len() - 1].ip@ == k);
        } else {
            if exists|i: int| 0 <= i < s.len() && (#[trigger] s[i]).ip@ == k {
                let i = choose|i: int| 0 <= i < s.len() && (#[trigger] s[i]).ip@ == k;
                assert(s.drop_last()[i].ip@ == k);
            }
            if exists|i: int| 0 <= i < s.drop_last().len() && (#[trigger] s.drop_last()[i]).ip@
                == k {
                let i = choose|i: int|
                    0 <= i < s.drop_last().len() && (#[trigger] s.drop_last()[i]).ip@ == k;
                assert(s[i].ip@ == k);
            }
        }
    }
}

proof fn lemma_distinct_drop_last(s: Seq<CacheEntry>)
    requires
        distinct_keys(s),
        s.len() > 0,
    ensures
        distinct_keys(s.drop_last()),
{
    assert forall|i: int, j: int| 0 <= i < j < s.drop_last().len() implies (#[trigger] s.drop_last()[i]).ip@
        != (#[trigger] s.drop_last()[j]).ip@ by {
        assert(s[i].ip@ != s[j].ip@);
    }
}

proof fn lemma_cache_map_at(s: Seq<CacheEntry>, i: int)
    requires
        distinct_keys(s),
        0 <= i < s.len(),
    ensures
        cache_map(s).contains_key(s[i].ip@),
        cache_map(s)[s[i].ip@] == s[i].result@,
    decreases s.len(),
{
    if i < s.len() - 1 {
        lemma_distinct_drop_last(s);
        lemma_cache_map_at(s.drop_last(), i);
        assert(s.drop_last()[i] == s[i]);
        assert(s.last().ip@ != s[i].ip@);
    }
}

proof fn lemma_cache_map_update(s: Seq<CacheEntry>, j: int, e: CacheEntry)
    requires
        distinct_keys(s),
        0 <= j < s.len(),
        e.ip@ == s[j].ip@,
    ensures
        cache_map(s.update(j, e)) == cache_map(s).insert(e.ip@, e.result@),
        distinct_keys(s.update(j, e)),
    decreases s.len(),
{
    let t = s.update(j, e);
    assert forall|p: int, q: int| 0 <= p < q < t.len() implies (#[trigger] t[p]).ip@
        != (#[trigger] t[q]).ip@ by {
        assert(t[p].ip@ == s[p].ip@);
        assert(t[q].ip@ == s[q].ip@);
    }
    if j == s.len() - 1 {
        assert(t.drop_last() =~= s.drop_last());
        assert(cache_map(s).insert(e.ip@, e.result@) =~= cache_map(s.drop_last()).insert(
            e.ip@,
            e.result@,
        ));
    } else {
        assert(t.drop_last() =~= s.drop_last().update(j, e));
        lemma_distinct_drop_last(s);
        lemma_cache_map_update(s.drop_last(), j, e);
        assert(t.last() == s.last());
        assert(s.last().ip@ != e.ip@);
        assert(cache_map(s.drop_last()).insert(e.ip@, e.result@).insert(
            s.last().ip@,
            s.last().result@,
        ) =~= cache_map(s.drop_last()).insert(s.last().ip@, s.last().result@).insert(
            e.ip@,
            e.result@,
        ));
    }
}

proof fn lemma_cache_map_push(s: Seq<CacheEntry>, e: CacheEntry)
    requires
        distinct_keys(s),
        forall|i: int| 0 <= i < s.len() ==> (#[trigger] s[i]).ip@ != e.ip@,
    ensures
        cache_map(s.push(e)) == cache_map(s).insert(e.ip@, e.result@),
        distinct_keys(s.push(e)),
{
    let t = s.push(e);
    assert(t.drop_last() =~= s);
    assert(t.last() == e);
    assert forall|p: int, q: int| 0 <= p < q < t.len() implies (#[trigger] t[p]).ip@
        != (#[trigger] t[q]).ip@ by {
        if q < s.len() {
            assert(t[p].ip@ == s[p].ip@);
            assert(t[q].ip@ == s[q].ip@);
        } else {
            assert(t[p].ip@ == s[p].ip@);
            assert(t[q] == e);
        }
    }
}

impl IpChecker {
    /// The API key the checker was created with, as the contracts see it.
    pub closed spec fn spec_api_key(&self) -> Seq<char> {
        self.api_key@
    }

    /// Well-formedness: no IP owns two cache entries.
    pub closed spec fn wf(&self) -> bool {
        distinct_keys(self.cache@)
    }

    /// A fresh checker: the given credentials and an empty cache.
    pub fn new(api_key: String) -> (c: Self)
        ensures
            c.wf(),
            c@ == Map::<Seq<char>, ResponseView>::empty(),
            c.spec_api_key() == api_key@,
    {
        IpChecker { api_key, cache: Vec::new() }
    }

    /// The exact request URL for one IP.
    pub fn lookup_url(&self, ip: &str) -> (url: String)
        ensures
            url@ == lookup_url_view(self.spec_api_key(), ip@),
    {
        let mut url = "https://www.ipqualityscore.com/api/json/ip/".to_owned();
        url.append(self.api_key.as_str());
        url.append("/");
        url.append(ip);
        url.append("?strictness=1&allow_public_access_points=true&lighter_penalties=true&mobile=true");
        url
    }

    /// The fast path of one lookup. A cached IP yields its stored result
    /// unchanged; an uncached IP yields the URL the caller must fetch
    /// before handing the outcome to `settle`. No outbound access happens
    /// here, so the caller may hold shared read access while deciding.
    pub fn get(&self, ip: &str) -> (step: LookupStep)
        requires
            self.wf(),
        ensures
            self@.contains_key(ip@) ==> (step matches LookupStep::Hit(v) && v@ == self@[ip@]),
            !self@.contains_key(ip@) ==> (step matches LookupStep::Miss(url) && url@
                == lookup_url_view(self.spec_api_key(), ip@)),
    {
        let key = ip.to_owned();
        let n = self.cache.len();
        let mut j: usize = 0;
        while j < n
            invariant
                n == self.cache@.len(),
                j <= n,
                forall|p: int| 0 <= p < j ==> (#[trigger] self.cache@[p]).ip@ != ip@,
                key@ == ip@,
                self.wf(),
            decreases n - j,
        {
            if self.cache[j].ip == key {
                proof {
                    lemma_cache_map_at(self.cache@, j as int);
                }
                return LookupStep::Hit(self.cache[j].result.clone());
            }
            j += 1;
        }
        proof {
            lemma_cache_map_contains(self.cache@, ip@);
        }
        LookupStep::Miss(self.lookup_url(ip))
    }

    /// The slow path's completion: record what the outbound call for `ip`
    /// came back with, and return it to the caller unmodified. A success
    /// is inserted (or overwrites a concurrent duplicate's insert); a
    /// failure leaves the cache exactly as it was, so a later `get` for
    /// the same IP misses again and retries the service.
    pub fn settle(&mut self, ip: &str, outcome: Result<IpQualityApiResponse, LookupError>) -> (r:
        Result<IpQualityApiResponse, LookupError>)
        requires
            old(self).wf(),
        ensures
            final(self).wf(),
            final(self).spec_api_key() == old(self).spec_api_key(),
            outcome matches Ok(v) ==> final(self)@ == old(self)@.insert(ip@, v@),
            outcome matches Err(_) ==> final(self)@ == old(self)@,
            r == outcome,
    {
        match outcome {
            Ok(v) => {
                let key = ip.to_owned();
                let n = self.cache.len();
                let mut j: usize = 0;
                while j < n
                    invariant
                        self.cache@ == old(self).cache@,
                        self.api_key@ == old(self).api_key@,
                        n == self.cache@.len(),
                        j <= n,
                        forall|p: int| 0 <= p < j ==> (#[trigger] self.cache@[p]).ip@ != ip@,
                        key@ == ip@,
                        old(self).wf(),
                        outcome == Ok::<IpQualityApiResponse, LookupError>(v),
                    decreases n - j,
                {
                    if self.cache[j].ip == key {
                        let entry = CacheEntry { ip: key, result: v.clone() };
                        proof {
                            lemma_cache_map_update(self.cache@, j as int, entry);
                        }
                        self.cache[j] = entry;
                        return Ok(v);
                    }
                    j += 1;
                }
                let entry = CacheEntry { ip: key, result: v.clone() };
                proof {
                    lemma_cache_map_push(self.cache@, entry);
                }
                self.cache.push(entry);
                Ok(v)
            },
            Err(e) => Err(e),
        }
    }
}

/// Law: once a successful lookup for `ip` is recorded, the cache maps
/// `ip` to exactly that result — so every later `get` for `ip`, however
/// many, is a hit that returns the stored value unchanged, and the
/// service is never queried for `ip` again.
pub proof fn lemma_idempotent_cache_hit(
    cache: Map<Seq<char>, ResponseView>,
    ip: Seq<char>,
    v: ResponseView,
)
    ensures
        cache.insert(ip, v).contains_key(ip),
        cache.insert(ip, v)[ip] == v,
{
}

/// Law: recording a result for one IP neither adds, drops nor changes
/// the cached entry of any other IP, so lookups for distinct IPs are
/// independent.
pub proof fn lemma_cache_isolation(
    cache: Map<Seq<char>, ResponseView>,
    a: Seq<char>,
    b: Seq<char>,
    v: ResponseView,
)
    requires
        a != b,
    ensures
        cache.insert(a, v).contains_key(b) == cache.contains_key(b),
        cache.contains_key(b) ==> cache.insert(a, v)[b] == cache[b],
{
}

} // verus!
