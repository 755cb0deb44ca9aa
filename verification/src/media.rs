//! The url-keyed media cache with fetch coalescing.
//!
//! For a given URL at most one fetch is ever in flight: the first caller to
//! ask for an uncached URL is told to start a fetch, every concurrent caller
//! for the same URL is told to await that one, and a completed fetch serves
//! all current and future callers from the cache. A failed fetch caches
//! nothing, so a later request retries.
//!
//! The cache itself performs no I/O. A caller that is told to start a fetch
//! performs it and reports the outcome through `complete_fetch`; the
//! decisions in between are verified here.

use vstd::prelude::*;

use crate::feed::distinct_ids;
use crate::feed::remove_id;
use crate::idmap::IdMap;

verus! {

/// A fetched and decoded image, held as its raw bytes.
#[derive(Debug, Clone, PartialEq)]
pub struct MediaHandle {
    pub bytes: Vec<u8>,
}

/// Whether a request for `url` must start its own fetch: yes exactly when no
/// handle is cached and no fetch is in flight.
pub open spec fn fetch_needed(
    cached: Map<Seq<char>, MediaHandle>,
    pending: Seq<Seq<char>>,
    url: Seq<char>,
) -> bool {
    !cached.contains_key(url) && !pending.contains(url)
}

/// The fetches a batch request starts: the URLs without a cached handle and
/// without an in-flight fetch, first occurrence only, in batch order.
pub open spec fn batch_plan(
    cached: Map<Seq<char>, MediaHandle>,
    pending: Seq<Seq<char>>,
    urls: Seq<Seq<char>>,
) -> Seq<Seq<char>>
    decreases urls.len(),
{
    if urls.len() == 0 {
        seq![]
    } else {
        let prior = batch_plan(cached, pending, urls.drop_last());
        let u = urls.last();
        if fetch_needed(cached, pending + prior, u) {
            prior.push(u)
        } else {
            prior
        }
    }
}

/// The merged result of a batch request: each requested URL that has a
/// cached handle, once, paired with that handle; failed or unfetched URLs
/// are simply absent.
pub open spec fn batch_view(
    cached: Map<Seq<char>, MediaHandle>,
    urls: Seq<Seq<char>>,
) -> Seq<(Seq<char>, MediaHandle)>
    decreases urls.len(),
{
    if urls.len() == 0 {
        seq![]
    } else {
        let prior = batch_view(cached, urls.drop_last());
        let u = urls.last();
        if cached.contains_key(u) && !prior.map_values(|p: (Seq<char>, MediaHandle)| p.0).contains(
            u,
        ) {
            prior.push((u, cached[u]))
        } else {
            prior
        }
    }
}

/// Url-keyed storage for fetched media, with the set of fetches in flight.
pub struct MediaCache {
    handles: IdMap<MediaHandle>,
    pending: Vec<String>,
}

impl MediaCache {
    /// The cached handles.
    pub closed spec fn handles(self) -> Map<Seq<char>, MediaHandle> {
        self.handles.view()
    }

    /// The URLs whose fetch is in flight.
    pub closed spec fn pending(self) -> Seq<Seq<char>> {
        self.pending@.map_values(|s: String| s@)
    }

    /// At most one fetch in flight per URL.
    pub closed spec fn wf(self) -> bool {
        self.handles.wf() && distinct_ids(self.pending())
    }

    /// An empty cache with nothing in flight.
    pub fn new() -> (r: MediaCache)
        ensures
            r.wf(),
            r.handles() == Map::<Seq<char>, MediaHandle>::empty(),
            r.pending() == Seq::<Seq<char>>::empty(),
    {
        let r = MediaCache { handles: IdMap::new(), pending: Vec::new() };
        proof {
            assert(r.pending() =~= Seq::<Seq<char>>::empty());
        }
        r
    }

    /// The cached handle for `url`, served without any fetch; `None` means
    /// the URL is not cached (yet).
    pub fn lookup<'a>(&'a self, url: &String) -> (r: Option<&'a MediaHandle>)
        requires
            self.wf(),
        ensures
            match r {
                Some(h) => self.handles().contains_key(url@) && *h == self.handles()[url@],
                None => !self.handles().contains_key(url@),
            },
    {
        self.handles.get(url)
    }

    /// Ask to fetch `url`. The caller must perform the fetch exactly when
    /// this returns true; false means the URL is already cached or already
    /// being fetched, and there is nothing to do but await it.
    pub fn begin_fetch(&mut self, url: &String) -> (started: bool)
        requires
            old(self).wf(),
        ensures
            final(self).wf(),
            started == fetch_needed(old(self).handles(), old(self).pending(), url@),
            started ==> final(self).handles() == old(self).handles() && final(self).pending()
                == old(self).pending().push(url@),
            !started ==> *final(self) == *old(self),
    {
        if self.handles.get(url).is_some() {
            return false;
        }
        if contains_str(&self.pending, url) {
            return false;
        }
        let ghost before = self.pending();
        self.pending.push(url.clone());
        proof {
            assert(self.pending() =~= before.push(url@));
        }
        true
    }

    /// Report the outcome of the fetch for `url`: a handle on success is
    /// cached and serves every current and future caller; a failure caches
    /// nothing, so a later request for the same URL retries. Either way the
    /// URL's in-flight slot is released.
    pub fn complete_fetch(&mut self, url: &String, outcome: Option<MediaHandle>)
        requires
            old(self).wf(),
        ensures
            final(self).wf(),
            final(self).pending() == remove_id(old(self).pending(), url@),
            final(self).handles() == match outcome {
                Some(h) => old(self).handles().insert(url@, h),
                None => old(self).handles(),
            },
    {
        let ghost before = self.pending();
        let mut kept: Vec<String> = Vec::new();
        let n = self.pending.len();
        for i in 0..n
            invariant
                n == self.pending.len(),
                self.pending() == before,
                kept@.map_values(|s: String| s@) == remove_id(before.take(i as int), url@),
        {
            let ghost sofar = kept@.map_values(|s: String| s@);
            proof {
                assert(before.take(i + 1).drop_last() =~= before.take(i as int));
                assert(before.take(i + 1).last() == before[i as int]);
            }
            if self.pending[i] == *url {
                proof {
                    assert(remove_id(before.take(i + 1), url@) =~= sofar);
                }
            } else {
                kept.push(self.pending[i].clone());
                proof {
                    assert(kept@.map_values(|s: String| s@) =~= sofar + seq![before[i as int]]);
                }
            }
        }
        proof {
            assert(before.take(n as int) =~= before);
        }
        self.pending = kept;
        proof {
            crate::feed::lemma_remove_id_properties(before, url@);
        }
        match outcome {
            Some(h) => {
                self.handles.insert(url.clone(), h);
            },
            None => {},
        }
    }

    /// Plan a batch request: mark every URL of the batch that needs a fetch
    /// (uncached, not in flight, first occurrence in the batch) as in flight,
    /// and return those URLs in batch order for the caller to fetch.
    pub fn plan_batch(&mut self, urls: &Vec<String>) -> (plan: Vec<String>)
        requires
            old(self).wf(),
        ensures
            final(self).wf(),
            final(self).handles() == old(self).handles(),
            plan@.map_values(|s: String| s@) == batch_plan(
                old(self).handles(),
                old(self).pending(),
                urls@.map_values(|s: String| s@),
            ),
            final(self).pending() == old(self).pending() + plan@.map_values(|s: String| s@),
    {
        let ghost cached0 = self.handles();
        let ghost pending0 = self.pending();
        let ghost uv = urls@.map_values(|s: String| s@);
        let mut plan: Vec<String> = Vec::new();
        let n = urls.len();
        proof {
            assert(pending0 + plan@.map_values(|s: String| s@) =~= pending0);
        }
        for i in 0..n
            invariant
                n == urls.len(),
                uv == urls@.map_values(|s: String| s@),
                self.wf(),
                self.handles() == cached0,
                plan@.map_values(|s: String| s@) == batch_plan(cached0, pending0, uv.take(i as int)),
                self.pending() == pending0 + plan@.map_values(|s: String| s@),
        {
            let ghost prior = plan@.map_values(|s: String| s@);
            proof {
                assert(uv.take(i + 1).drop_last() =~= uv.take(i as int));
                assert(uv.take(i + 1).last() == uv[i as int]);
                assert(uv[i as int] == urls@[i as int]@);
            }
            let started = self.begin_fetch(&urls[i]);
            if started {
                plan.push(urls[i].clone());
                proof {
                    assert(plan@.map_values(|s: String| s@) =~= prior.push(uv[i as int]));
                    assert(self.pending() == (pending0 + prior).push(uv[i as int]));
                    assert(pending0 + prior.push(uv[i as int]) =~= (pending0 + prior).push(
                        uv[i as int],
                    ));
                }
            }
        }
        proof {
            assert(uv.take(n as int) =~= uv);
        }
        plan
    }

    /// Merge a batch's results: each requested URL that has a cached handle,
    /// once, with that handle; a URL whose fetch failed (or never happened)
    /// is simply absent, and the caller renders a placeholder for it.
    pub fn collect_batch<'a>(&'a self, urls: &Vec<String>) -> (found: Vec<(String, &'a MediaHandle)>)
        requires
            self.wf(),
        ensures
            found@.map_values(|p: (String, &'a MediaHandle)| (p.0@, *p.1)) == batch_view(
                self.handles(),
                urls@.map_values(|s: String| s@),
            ),
    {
        let ghost uv = urls@.map_values(|s: String| s@);
        let mut found: Vec<(String, &'a MediaHandle)> = Vec::new();
        let n = urls.len();
        for i in 0..n
            invariant
                n == urls.len(),
                uv == urls@.map_values(|s: String| s@),
                self.wf(),
                found@.map_values(|p: (String, &'a MediaHandle)| (p.0@, *p.1)) == batch_view(
                    self.handles(),
                    uv.take(i as int),
                ),
        {
            let ghost prior = found@.map_values(|p: (String, &'a MediaHandle)| (p.0@, *p.1));
            proof {
                assert(uv.take(i + 1).drop_last() =~= uv.take(i as int));
                assert(uv.take(i + 1).last() == uv[i as int]);
                assert(uv[i as int] == urls@[i as int]@);
            }
            let dup = contains_pair_key(&found, &urls[i]);
            proof {
                assert(found@.map_values(|p: (String, &'a MediaHandle)| p.0@) =~= prior.map_values(
                    |p: (Seq<char>, MediaHandle)| p.0,
                ));
            }
            if !dup {
                match self.handles.get(&urls[i]) {
                    Some(h) => {
                        found.push((urls[i].clone(), h));
                        proof {
                            assert(found@.map_values(|p: (String, &'a MediaHandle)| (p.0@, *p.1))
                                =~= prior.push((uv[i as int], self.handles()[uv[i as int]])));
                        }
                    },
                    None => {},
                }
            }
        }
        proof {
            assert(uv.take(n as int) =~= uv);
        }
        found
    }

    /// Forget every handle and every in-flight mark (logout).
    pub fn clear(&mut self)
        ensures
            final(self).wf(),
            final(self).handles() == Map::<Seq<char>, MediaHandle>::empty(),
            final(self).pending() == Seq::<Seq<char>>::empty(),
    {
        self.handles.clear();
        self.pending = Vec::new();
        proof {
            assert(self.pending() =~= Seq::<Seq<char>>::empty());
        }
    }
}

/// Whether some string of `v` reads `s`.
fn contains_str(v: &Vec<String>, s: &String) -> (r: bool)
    ensures
        r == v@.map_values(|x: String| x@).contains(s@),
{
    let n = v.len();
    for i in 0..n
        invariant
            n == v.len(),
            forall|j: int| 0 <= j < i ==> v@[j]@ != s@,
    {
        if v[i] == *s {
            proof {
                assert(v@.map_values(|x: String| x@)[i as int] == s@);
            }
            return true;
        }
    }
    proof {
        let m = v@.map_values(|x: String| x@);
        if m.contains(s@) {
            let j = choose|j: int| 0 <= j < m.len() && m[j] == s@;
            assert(m[j] == v@[j]@);
        }
    }
    false
}

/// Whether some pair of `v` carries the key `s`.
fn contains_pair_key<'a>(v: &Vec<(String, &'a MediaHandle)>, s: &String) -> (r: bool)
    ensures
        r == v@.map_values(|p: (String, &'a MediaHandle)| p.0@).contains(s@),
{
    let n = v.len();
    for i in 0..n
        invariant
            n == v.len(),
            forall|j: int| 0 <= j < i ==> v@[j].0@ != s@,
    {
        if v[i].0 == *s {
            proof {
                assert(v@.map_values(|p: (String, &'a MediaHandle)| p.0@)[i as int] == s@);
            }
            return true;
        }
    }
    proof {
        let m = v@.map_values(|p: (String, &'a MediaHandle)| p.0@);
        if m.contains(s@) {
            let j = choose|j: int| 0 <= j < m.len() && m[j] == s@;
            assert(m[j] == v@[j].0@);
        }
    }
    false
}

/// A batch never over-fetches: the planned URLs are pairwise distinct, and
/// each of them had neither a cached handle nor a fetch in flight when the
/// batch was planned.
pub proof fn lemma_batch_plan_fetches_once(
    cached: Map<Seq<char>, MediaHandle>,
    pending: Seq<Seq<char>>,
    urls: Seq<Seq<char>>,
)
    ensures
        distinct_ids(batch_plan(cached, pending, urls)),
        forall|u: Seq<char>| #[trigger] batch_plan(cached, pending, urls).contains(u)
            ==> fetch_needed(cached, pending, u),
    decreases urls.len(),
{
    if urls.len() > 0 {
        lemma_batch_plan_fetches_once(cached, pending, urls.drop_last());
        let prior = batch_plan(cached, pending, urls.drop_last());
        let u = urls.last();
        let r = batch_plan(cached, pending, urls);
        if fetch_needed(cached, pending + prior, u) {
            assert(r == prior.push(u));
            assert(!(pending + prior).contains(u));
            assert(!pending.contains(u)) by {
                if pending.contains(u) {
                    let i = choose|i: int| 0 <= i < pending.len() && pending[i] == u;
                    assert((pending + prior)[i] == u);
                }
            }
            assert(!prior.contains(u)) by {
                if prior.contains(u) {
                    let i = choose|i: int| 0 <= i < prior.len() && prior[i] == u;
                    assert((pending + prior)[pending.len() + i] == u);
                }
            }
            assert(forall|i: int| 0 <= i < prior.len() ==> prior[i] != u);
            assert forall|i: int, j: int| 0 <= i < j < r.len() implies r[i] != r[j] by {
                if j == r.len() - 1 {
                    assert(r[i] == prior[i]);
                }
            }
            assert forall|x: Seq<char>| #[trigger] r.contains(x) implies fetch_needed(
                cached,
                pending,
                x,
            ) by {
                let i = choose|i: int| 0 <= i < r.len() && r[i] == x;
                if i < r.len() - 1 {
                    assert(prior[i] == x);
                    assert(prior.contains(x));
                }
            }
        } else {
            assert(r == prior);
        }
    }
}

/// Partial batch success: of two distinct uncached URLs requested together,
/// the one whose fetch succeeded with a handle is in the merged result, with
/// exactly that handle, and the one whose fetch failed is simply absent.
pub proof fn lemma_partial_batch_success(
    cached: Map<Seq<char>, MediaHandle>,
    failed: Seq<char>,
    fetched: Seq<char>,
    h: MediaHandle,
)
    requires
        failed != fetched,
        !cached.contains_key(failed),
    ensures
        batch_view(cached.insert(fetched, h), seq![failed, fetched]) == seq![(fetched, h)],
{
    let after = cached.insert(fetched, h);
    let urls = seq![failed, fetched];
    let one = urls.drop_last();
    assert(one =~= seq![failed]);
    assert(one.drop_last() =~= Seq::<Seq<char>>::empty());
    assert(batch_view(after, one.drop_last()) =~= Seq::<(Seq<char>, MediaHandle)>::empty());
    assert(one.last() == failed);
    assert(!after.contains_key(failed));
    assert(batch_view(after, one) =~= Seq::<(Seq<char>, MediaHandle)>::empty());
    assert(urls.last() == fetched);
    assert(after.contains_key(fetched) && after[fetched] == h);
    assert(batch_view(after, urls) =~= seq![(fetched, h)]);
}

/// The fetch-coalescing law: when a request for an uncached, not-in-flight
/// URL starts the one fetch, any concurrent request for the same URL is told
/// to await it rather than start another; when that fetch completes with a
/// handle, every caller — those that awaited and all later ones — is served
/// exactly that handle from the cache; and when it fails, nothing negative
/// is cached and the state returns to where it was, so the next request
/// retries.
pub proof fn lemma_fetch_coalescing(
    cached: Map<Seq<char>, MediaHandle>,
    pending: Seq<Seq<char>>,
    url: Seq<char>,
    h: MediaHandle,
)
    requires
        fetch_needed(cached, pending, url),
    ensures
        !fetch_needed(cached, pending.push(url), url),
        remove_id(pending.push(url), url) == pending,
        cached.insert(url, h).contains_key(url) && cached.insert(url, h)[url] == h,
        !fetch_needed(cached.insert(url, h), pending, url),
{
    assert(pending.push(url).contains(url)) by {
        assert(pending.push(url)[pending.len() as int] == url);
    }
    crate::feed::lemma_remove_id_properties(pending, url);
    assert(pending.push(url).drop_last() =~= pending);
    assert(remove_id(pending.push(url), url) =~= remove_id(pending, url));
}

} // verus!
