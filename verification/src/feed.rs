//! An ordered, duplicate-free sequence of entity-id references plus the
//! pagination state of one logical timeline.
//!
//! The front of the sequence is the newest entry: live events are prepended,
//! backfilled (older) entries are appended. An id is admitted at most once,
//! however often backfill and the live stream offer it, and a repeated offer
//! never moves the id from the position its first admission gave it.

use vstd::prelude::*;

use crate::cache::EntityCache;
use crate::entities::Notification;
use crate::entities::Status;

verus! {

/// The entities a sequence of ids resolves to against an id-keyed map, in
/// feed order; an id the map does not know is silently left out.
pub open spec fn resolved_in<E>(ids: Seq<Seq<char>>, m: Map<Seq<char>, E>) -> Seq<E>
    decreases ids.len(),
{
    if ids.len() == 0 {
        seq![]
    } else {
        resolved_in(ids.drop_last(), m) + if m.contains_key(ids.last()) {
            seq![m[ids.last()]]
        } else {
            seq![]
        }
    }
}

/// Number of entries one backfill page is asked to carry.
pub const PAGE_SIZE: usize = 20;

/// No id occurs twice in the sequence.
pub open spec fn distinct_ids(ids: Seq<Seq<char>>) -> bool {
    forall|i: int, j: int| 0 <= i < j < ids.len() ==> ids[i] != ids[j]
}

/// The sequence after offering `id` at the back: unchanged when `id` is
/// already present, extended otherwise.
pub open spec fn append_id(ids: Seq<Seq<char>>, id: Seq<char>) -> Seq<Seq<char>> {
    if ids.contains(id) {
        ids
    } else {
        ids.push(id)
    }
}

/// The sequence after offering `id` at the front: unchanged when `id` is
/// already present, extended otherwise.
pub open spec fn prepend_id(ids: Seq<Seq<char>>, id: Seq<char>) -> Seq<Seq<char>> {
    if ids.contains(id) {
        ids
    } else {
        seq![id] + ids
    }
}

/// The sequence with every occurrence of `id` deleted, other entries kept in
/// order.
pub open spec fn remove_id(ids: Seq<Seq<char>>, id: Seq<char>) -> Seq<Seq<char>>
    decreases ids.len(),
{
    if ids.len() == 0 {
        seq![]
    } else {
        remove_id(ids.drop_last(), id) + if ids.last() == id {
            seq![]
        } else {
            seq![ids.last()]
        }
    }
}

/// An ordered, duplicate-free feed of entity ids (front = newest), with the
/// cursor (`skip`) and guard (`loading`) that drive its backfill pagination.
pub struct Feed {
    items: Vec<String>,
    skip: usize,
    loading: bool,
}

impl Feed {
    /// The ids held by the feed, front (newest) first.
    pub closed spec fn ids(self) -> Seq<Seq<char>> {
        self.items@.map_values(|s: String| s@)
    }

    /// How many entries the next backfill page is asked to skip.
    pub closed spec fn spec_skip(self) -> int {
        self.skip as int
    }

    /// Whether a backfill page is currently outstanding.
    pub closed spec fn is_loading(self) -> bool {
        self.loading
    }

    /// The dedup invariant: an id appears at most once.
    pub closed spec fn wf(self) -> bool {
        distinct_ids(self.ids())
    }

    /// An empty feed, not loading, with the cursor at the start.
    pub fn new() -> (r: Feed)
        ensures
            r.wf(),
            r.ids() == Seq::<Seq<char>>::empty(),
            r.spec_skip() == 0,
            !r.is_loading(),
    {
        let r = Feed { items: Vec::new(), skip: 0, loading: false };
        proof {
            assert(r.ids() =~= Seq::<Seq<char>>::empty());
        }
        r
    }

    /// Whether `id` is already present.
    pub fn contains(&self, id: &String) -> (r: bool)
        ensures
            r == self.ids().contains(id@),
    {
        let n = self.items.len();
        for i in 0..n
            invariant
                n == self.items.len(),
                forall|j: int| 0 <= j < i ==> self.ids()[j] != id@,
        {
            if self.items[i] == *id {
                proof {
                    assert(self.ids()[i as int] == id@);
                }
                return true;
            }
        }
        proof {
            assert(forall|j: int| 0 <= j < self.ids().len() ==> self.ids()[j] != id@);
        }
        false
    }

    /// Offer `id` at the back (older entries, backfill order). A no-op when
    /// the id is already present.
    pub fn append(&mut self, id: String)
        requires
            old(self).wf(),
        ensures
            final(self).wf(),
            final(self).ids() == append_id(old(self).ids(), id@),
            final(self).spec_skip() == old(self).spec_skip(),
            final(self).is_loading() == old(self).is_loading(),
    {
        if !self.contains(&id) {
            let ghost before = self.ids();
            self.items.push(id);
            proof {
                assert(self.ids() =~= before.push(id@));
            }
        }
    }

    /// Offer `id` at the front (newest entries, live arrival order). A no-op
    /// when the id is already present.
    pub fn prepend(&mut self, id: String)
        requires
            old(self).wf(),
        ensures
            final(self).wf(),
            final(self).ids() == prepend_id(old(self).ids(), id@),
            final(self).spec_skip() == old(self).spec_skip(),
            final(self).is_loading() == old(self).is_loading(),
    {
        if !self.contains(&id) {
            let ghost before = self.ids();
            self.items.insert(0, id);
            proof {
                assert(self.ids() =~= seq![id@] + before);
            }
        }
    }

    /// Delete `id` if present; a no-op otherwise.
    pub fn remove(&mut self, id: &String)
        requires
            old(self).wf(),
        ensures
            final(self).wf(),
            final(self).ids() == remove_id(old(self).ids(), id@),
            final(self).spec_skip() == old(self).spec_skip(),
            final(self).is_loading() == old(self).is_loading(),
    {
        let ghost before = self.ids();
        let mut kept: Vec<String> = Vec::new();
        let n = self.items.len();
        for i in 0..n
            invariant
                n == self.items.len(),
                self.ids() == before,
                kept@.map_values(|s: String| s@) == remove_id(before.take(i as int), id@),
        {
            let ghost sofar = kept@.map_values(|s: String| s@);
            proof {
                assert(before.take(i + 1).drop_last() =~= before.take(i as int));
                assert(before.take(i + 1).last() == before[i as int]);
            }
            if self.items[i] == *id {
                proof {
                    assert(remove_id(before.take(i + 1), id@) =~= sofar);
                }
            } else {
                kept.push(self.items[i].clone());
                proof {
                    assert(kept@.map_values(|s: String| s@) =~= sofar + seq![before[i as int]]);
                }
            }
        }
        proof {
            assert(before.take(n as int) =~= before);
        }
        self.items = kept;
        proof {
            lemma_remove_id_properties(before, id@);
        }
    }

    /// Ask for one more backfill page. When no page is outstanding, raise the
    /// `loading` guard and advance the cursor by one page; while a page is
    /// outstanding this changes nothing and reports that no fetch was started.
    pub fn request_more(&mut self) -> (started: bool)
        requires
            old(self).wf(),
            old(self).spec_skip() + PAGE_SIZE <= usize::MAX,
        ensures
            final(self).wf(),
            old(self).is_loading() ==> *final(self) == *old(self) && !started,
            !old(self).is_loading() ==> started && final(self).is_loading()
                && final(self).spec_skip() == old(self).spec_skip() + PAGE_SIZE
                && final(self).ids() == old(self).ids(),
    {
        if self.loading {
            false
        } else {
            self.loading = true;
            self.skip = self.skip + PAGE_SIZE;
            true
        }
    }

    /// Record that the outstanding backfill page is done (delivered or
    /// failed): drop the `loading` guard so pagination can continue.
    pub fn complete_page(&mut self)
        requires
            old(self).wf(),
        ensures
            final(self).wf(),
            !final(self).is_loading(),
            final(self).ids() == old(self).ids(),
            final(self).spec_skip() == old(self).spec_skip(),
    {
        self.loading = false;
    }

    /// Whether the feed is short of the entries its cursor promises, so that
    /// another backfill page should be requested.
    pub fn wants_page(&self) -> (r: bool)
        ensures
            r == (self.ids().len() == 0 || self.ids().len() != self.spec_skip() + PAGE_SIZE),
    {
        if self.items.len() == 0 {
            true
        } else if self.skip > usize::MAX - PAGE_SIZE {
            true
        } else {
            self.items.len() != self.skip + PAGE_SIZE
        }
    }

    /// How many entries the next backfill page is asked to skip.
    pub fn skip(&self) -> (r: usize)
        ensures
            r as int == self.spec_skip(),
    {
        self.skip
    }

    /// Whether a backfill page is currently outstanding.
    pub fn loading(&self) -> (r: bool)
        ensures
            r == self.is_loading(),
    {
        self.loading
    }

    /// The ids held, front (newest) first.
    pub fn entries(&self) -> (r: &Vec<String>)
        ensures
            r@.map_values(|s: String| s@) == self.ids(),
    {
        &self.items
    }

    /// How many ids the feed holds.
    pub fn len(&self) -> (r: usize)
        ensures
            r == self.ids().len(),
    {
        self.items.len()
    }

    /// The feed's entries resolved to statuses through the entity cache, in
    /// feed order. An id not yet ingested is silently omitted: it simply does
    /// not render this frame and appears once its entity arrives. Never
    /// fails.
    pub fn snapshot_statuses<'a>(&self, cache: &'a EntityCache) -> (r: Vec<&'a Status>)
        requires
            cache.wf(),
        ensures
            r@.map_values(|p: &Status| *p) == resolved_in(self.ids(), cache.statuses()),
    {
        let mut out: Vec<&'a Status> = Vec::new();
        let n = self.items.len();
        proof {
            assert(out@.map_values(|p: &Status| *p) =~= Seq::<Status>::empty());
        }
        for i in 0..n
            invariant
                n == self.items.len(),
                cache.wf(),
                out@.map_values(|p: &Status| *p) == resolved_in(
                    self.ids().take(i as int),
                    cache.statuses(),
                ),
        {
            let ghost sofar = out@.map_values(|p: &Status| *p);
            proof {
                assert(self.ids().take(i + 1).drop_last() =~= self.ids().take(i as int));
                assert(self.ids().take(i + 1).last() == self.ids()[i as int]);
                assert(self.ids()[i as int] == self.items@[i as int]@);
            }
            match cache.get_status(&self.items[i]) {
                Some(s) => {
                    out.push(s);
                    proof {
                        assert(out@.map_values(|p: &Status| *p) =~= sofar.push(
                            cache.statuses()[self.ids()[i as int]],
                        ));
                        assert(resolved_in(self.ids().take(i + 1), cache.statuses()) =~= sofar.push(
                            cache.statuses()[self.ids()[i as int]],
                        ));
                    }
                },
                None => {
                    proof {
                        assert(resolved_in(self.ids().take(i + 1), cache.statuses()) =~= sofar);
                    }
                },
            }
        }
        proof {
            assert(self.ids().take(n as int) =~= self.ids());
        }
        out
    }

    /// The feed's entries resolved to notifications through the entity
    /// cache, in feed order, ids not yet ingested silently omitted.
    pub fn snapshot_notifications<'a>(&self, cache: &'a EntityCache) -> (r: Vec<&'a Notification>)
        requires
            cache.wf(),
        ensures
            r@.map_values(|p: &Notification| *p) == resolved_in(self.ids(), cache.notifications()),
    {
        let mut out: Vec<&'a Notification> = Vec::new();
        let n = self.items.len();
        proof {
            assert(out@.map_values(|p: &Notification| *p) =~= Seq::<Notification>::empty());
        }
        for i in 0..n
            invariant
                n == self.items.len(),
                cache.wf(),
                out@.map_values(|p: &Notification| *p) == resolved_in(
                    self.ids().take(i as int),
                    cache.notifications(),
                ),
        {
            let ghost sofar = out@.map_values(|p: &Notification| *p);
            proof {
                assert(self.ids().take(i + 1).drop_last() =~= self.ids().take(i as int));
                assert(self.ids().take(i + 1).last() == self.ids()[i as int]);
                assert(self.ids()[i as int] == self.items@[i as int]@);
            }
            match cache.get_notification(&self.items[i]) {
                Some(e) => {
                    out.push(e);
                    proof {
                        assert(out@.map_values(|p: &Notification| *p) =~= sofar.push(
                            cache.notifications()[self.ids()[i as int]],
                        ));
                        assert(resolved_in(self.ids().take(i + 1), cache.notifications())
                            =~= sofar.push(cache.notifications()[self.ids()[i as int]]));
                    }
                },
                None => {
                    proof {
                        assert(resolved_in(self.ids().take(i + 1), cache.notifications())
                            =~= sofar);
                    }
                },
            }
        }
        proof {
            assert(self.ids().take(n as int) =~= self.ids());
        }
        out
    }

    /// Forget all entries and pagination state (logout, account switch).
    pub fn clear(&mut self)
        ensures
            final(self).wf(),
            final(self).ids() == Seq::<Seq<char>>::empty(),
            final(self).spec_skip() == 0,
            !final(self).is_loading(),
    {
        self.items = Vec::new();
        self.skip = 0;
        self.loading = false;
        proof {
            assert(self.ids() =~= Seq::<Seq<char>>::empty());
        }
    }
}

/// What deleting an id leaves behind: every other entry, in order, each at
/// most once; the deleted id is gone.
pub proof fn lemma_remove_id_properties(ids: Seq<Seq<char>>, id: Seq<char>)
    ensures
        !remove_id(ids, id).contains(id),
        forall|x: Seq<char>| #[trigger] remove_id(ids, id).contains(x) ==> ids.contains(x),
        distinct_ids(ids) ==> distinct_ids(remove_id(ids, id)),
        !ids.contains(id) ==> remove_id(ids, id) == ids,
    decreases ids.len(),
{
    if ids.len() == 0 {
        assert(remove_id(ids, id) =~= ids);
    } else {
        let prefix = ids.drop_last();
        lemma_remove_id_properties(prefix, id);
        assert(forall|x: Seq<char>| prefix.contains(x) ==> ids.contains(x));
        let r = remove_id(ids, id);
        let rp = remove_id(prefix, id);
        if !ids.contains(id) {
            assert(forall|i: int| 0 <= i < prefix.len() ==> ids[i] != id);
            assert(!prefix.contains(id));
            assert(ids.last() != id) by {
                assert(ids[ids.len() - 1] == ids.last());
            }
            assert(r =~= prefix.push(ids.last()));
            assert(r =~= ids);
        }
        if ids.last() == id {
            assert(r =~= rp);
        } else {
            assert(r =~= rp.push(ids.last()));
            assert(forall|x: Seq<char>| r.contains(x) ==> rp.contains(x) || x == ids.last());
            assert(ids.contains(ids.last()));
            if distinct_ids(ids) {
                assert(distinct_ids(prefix));
                assert(forall|i: int| 0 <= i < prefix.len() ==> prefix[i] != ids.last());
                assert(!prefix.contains(ids.last()));
                assert(!rp.contains(ids.last()));
                assert forall|i: int, j: int| 0 <= i < j < r.len() implies r[i] != r[j] by {
                    if j == r.len() - 1 {
                        assert(rp.contains(r[i]));
                    }
                }
            }
        }
    }
}

/// The dedup law: however often an id is offered, by backfill (`append_id`)
/// or by the live stream (`prepend_id`), the feed keeps each id at most once,
/// the offered id is present afterwards, and offering an id that is already
/// present changes nothing — in particular its position does not move.
pub proof fn lemma_feed_dedup(ids: Seq<Seq<char>>, id: Seq<char>)
    requires
        distinct_ids(ids),
    ensures
        distinct_ids(append_id(ids, id)),
        distinct_ids(prepend_id(ids, id)),
        append_id(ids, id).contains(id),
        prepend_id(ids, id).contains(id),
        ids.contains(id) ==> append_id(ids, id) == ids,
        ids.contains(id) ==> prepend_id(ids, id) == ids,
{
    if !ids.contains(id) {
        let a = ids.push(id);
        assert(forall|i: int| 0 <= i < ids.len() ==> ids[i] != id);
        assert forall|i: int, j: int| 0 <= i < j < a.len() implies a[i] != a[j] by {
            if j == a.len() - 1 {
                assert(a[i] == ids[i]);
            }
        }
        assert(a.contains(id)) by {
            assert(a[a.len() - 1] == id);
        }
        let p = seq![id] + ids;
        assert forall|i: int, j: int| 0 <= i < j < p.len() implies p[i] != p[j] by {
            if i == 0 {
                assert(p[j] == ids[j - 1]);
            } else {
                assert(p[i] == ids[i - 1] && p[j] == ids[j - 1]);
            }
        }
        assert(p.contains(id)) by {
            assert(p[0] == id);
        }
    }
}

} // verus!
