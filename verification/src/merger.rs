//! The event merger: it bridges the live push stream and the backfill
//! fetcher into feed mutations.
//!
//! For every incoming entity it (a) normalizes the entity into the entity
//! cache, (b) splices the entity's id into the owning feed — at the back for
//! backfill, at the front for live arrivals, deletion for server pushes —
//! and (c) derives the media URLs the entity references and plans their
//! fetches with the media cache. The returned URLs are the fetches the
//! caller must perform and report back; everything else has already
//! happened.

use vstd::prelude::*;

use crate::cache::put_status_map;
use crate::cache::stored_notification;
use crate::cache::EntityCache;
use crate::entities::Notification;
use crate::entities::Status;
use crate::entities::StatusLink;
use crate::feed::append_id;
use crate::feed::prepend_id;
use crate::feed::remove_id;
use crate::feed::Feed;
use crate::media::batch_plan;
use crate::media::MediaCache;
use crate::pages::all_pages;
use crate::pages::public_pages;
use crate::pages::MastodonPage;
use crate::pages::Page;
use crate::pages::TimelineType;
use crate::urls::extract_notification_images;
use crate::urls::extract_status_images;
use crate::urls::notification_image_urls;
use crate::urls::status_image_urls;

verus! {

/// One event of the live push stream.
#[derive(Debug, PartialEq)]
pub enum LiveEvent {
    /// A new or edited status for the home timeline.
    Update(Status),
    /// A new notification.
    Notify(Notification),
    /// A status was deleted, by id.
    Delete(String),
    /// The server-side filters changed; nothing to merge.
    FiltersChanged,
}

/// One authenticated session's shared state: the two caches and one feed per
/// logical timeline.
pub struct Session {
    /// The session's access token; empty when unauthenticated.
    pub token: String,
    pub cache: EntityCache,
    pub media: MediaCache,
    pub home: Feed,
    pub notifications: Feed,
    pub explore: Feed,
    pub local: Feed,
    pub federated: Feed,
}

impl MastodonPage for Session {
    fn is_authenticated(&self) -> bool {
        !self.token.as_str().is_empty()
    }
}

impl Session {
    pub open spec fn wf(self) -> bool {
        &&& self.cache.wf()
        &&& self.media.wf()
        &&& self.home.wf()
        &&& self.notifications.wf()
        &&& self.explore.wf()
        &&& self.local.wf()
        &&& self.federated.wf()
    }

    /// All feeds empty and not loading, both caches empty.
    pub open spec fn is_cleared(self) -> bool {
        &&& self.cache.statuses() == Map::<Seq<char>, Status>::empty()
        &&& self.cache.notifications() == Map::<Seq<char>, Notification>::empty()
        &&& self.media.handles() == Map::<Seq<char>, crate::media::MediaHandle>::empty()
        &&& self.media.pending() == Seq::<Seq<char>>::empty()
        &&& self.home.ids() == Seq::<Seq<char>>::empty() && !self.home.is_loading()
            && self.home.spec_skip() == 0
        &&& self.notifications.ids() == Seq::<Seq<char>>::empty()
            && !self.notifications.is_loading() && self.notifications.spec_skip() == 0
        &&& self.explore.ids() == Seq::<Seq<char>>::empty() && !self.explore.is_loading()
            && self.explore.spec_skip() == 0
        &&& self.local.ids() == Seq::<Seq<char>>::empty() && !self.local.is_loading()
            && self.local.spec_skip() == 0
        &&& self.federated.ids() == Seq::<Seq<char>>::empty() && !self.federated.is_loading()
            && self.federated.spec_skip() == 0
    }

    /// A fresh session with the given token and nothing ingested.
    pub fn new(token: String) -> (r: Session)
        ensures
            r.wf(),
            r.is_cleared(),
            r.token@ == token@,
    {
        Session {
            token,
            cache: EntityCache::new(),
            media: MediaCache::new(),
            home: Feed::new(),
            notifications: Feed::new(),
            explore: Feed::new(),
            local: Feed::new(),
            federated: Feed::new(),
        }
    }

    /// Whether the live user stream should be running: only for an
    /// authenticated session.
    pub fn wants_user_stream(&self) -> (r: bool)
        ensures
            r == (self.token@.len() != 0),
    {
        !self.token.as_str().is_empty()
    }

    /// The pages this session may show: every page when authenticated, the
    /// public ones otherwise.
    pub fn visible_pages(&self) -> (r: Vec<Page>)
        ensures
            self.token@.len() == 0 ==> r@ == public_pages(),
            self.token@.len() != 0 ==> r@ == all_pages(),
    {
        if self.token.as_str().is_empty() {
            Page::public_variants()
        } else {
            Page::variants()
        }
    }

    /// Merge one live event. An `Update` is stored canonically and prepended
    /// to the home feed; a `Notify` is stored and prepended to the
    /// notifications feed; a `Delete` removes the status id from every feed
    /// that could hold a status id; a filter change merges nothing. Returns
    /// the media URLs the caller must fetch.
    pub fn handle_live_event(&mut self, event: LiveEvent) -> (fetch: Vec<String>)
        requires
            old(self).wf(),
        ensures
            final(self).wf(),
            final(self).token == old(self).token,
            match event {
                LiveEvent::Update(s) => {
                    &&& final(self).cache.statuses() == put_status_map(
                        old(self).cache.statuses(),
                        s,
                    )
                    &&& final(self).cache.notifications() == old(self).cache.notifications()
                    &&& final(self).home.ids() == prepend_id(old(self).home.ids(), s.id@)
                    &&& final(self).home.spec_skip() == old(self).home.spec_skip()
                    &&& final(self).home.is_loading() == old(self).home.is_loading()
                    &&& final(self).notifications == old(self).notifications
                    &&& final(self).explore == old(self).explore
                    &&& final(self).local == old(self).local
                    &&& final(self).federated == old(self).federated
                    &&& fetch@.map_values(|x: String| x@) == batch_plan(
                        old(self).media.handles(),
                        old(self).media.pending(),
                        status_image_urls(s),
                    )
                    &&& final(self).media.handles() == old(self).media.handles()
                    &&& final(self).media.pending() == old(self).media.pending()
                        + fetch@.map_values(|x: String| x@)
                },
                LiveEvent::Notify(n) => {
                    &&& final(self).cache.notifications() == old(
                        self,
                    ).cache.notifications().insert(n.id@, stored_notification(n))
                    &&& final(self).cache.statuses() == match n.status {
                        StatusLink::Embedded(s) => put_status_map(old(self).cache.statuses(), *s),
                        _ => old(self).cache.statuses(),
                    }
                    &&& final(self).notifications.ids() == prepend_id(
                        old(self).notifications.ids(),
                        n.id@,
                    )
                    &&& final(self).notifications.spec_skip() == old(self).notifications.spec_skip()
                    &&& final(self).notifications.is_loading() == old(
                        self,
                    ).notifications.is_loading()
                    &&& final(self).home == old(self).home
                    &&& final(self).explore == old(self).explore
                    &&& final(self).local == old(self).local
                    &&& final(self).federated == old(self).federated
                    &&& fetch@.map_values(|x: String| x@) == batch_plan(
                        old(self).media.handles(),
                        old(self).media.pending(),
                        notification_image_urls(n),
                    )
                    &&& final(self).media.handles() == old(self).media.handles()
                    &&& final(self).media.pending() == old(self).media.pending()
                        + fetch@.map_values(|x: String| x@)
                },
                LiveEvent::Delete(id) => {
                    &&& final(self).cache == old(self).cache
                    &&& final(self).media == old(self).media
                    &&& final(self).home.ids() == remove_id(old(self).home.ids(), id@)
                    &&& final(self).home.spec_skip() == old(self).home.spec_skip()
                    &&& final(self).home.is_loading() == old(self).home.is_loading()
                    &&& final(self).explore.ids() == remove_id(old(self).explore.ids(), id@)
                    &&& final(self).explore.spec_skip() == old(self).explore.spec_skip()
                    &&& final(self).explore.is_loading() == old(self).explore.is_loading()
                    &&& final(self).local.ids() == remove_id(old(self).local.ids(), id@)
                    &&& final(self).local.spec_skip() == old(self).local.spec_skip()
                    &&& final(self).local.is_loading() == old(self).local.is_loading()
                    &&& final(self).federated.ids() == remove_id(old(self).federated.ids(), id@)
                    &&& final(self).federated.spec_skip() == old(self).federated.spec_skip()
                    &&& final(self).federated.is_loading() == old(self).federated.is_loading()
                    &&& final(self).notifications == old(self).notifications
                    &&& fetch@ == Seq::<String>::empty()
                },
                LiveEvent::FiltersChanged => {
                    &&& *final(self) == *old(self)
                    &&& fetch@ == Seq::<String>::empty()
                },
            },
    {
        match event {
            LiveEvent::Update(s) => ingest_live_status(
                &mut self.cache,
                &mut self.home,
                &mut self.media,
                s,
            ),
            LiveEvent::Notify(n) => ingest_live_notification(
                &mut self.cache,
                &mut self.notifications,
                &mut self.media,
                n,
            ),
            LiveEvent::Delete(id) => {
                self.home.remove(&id);
                self.explore.remove(&id);
                self.local.remove(&id);
                self.federated.remove(&id);
                let fetch: Vec<String> = Vec::new();
                proof {
                    assert(fetch@ =~= Seq::<String>::empty());
                }
                fetch
            },
            LiveEvent::FiltersChanged => {
                let fetch: Vec<String> = Vec::new();
                proof {
                    assert(fetch@ =~= Seq::<String>::empty());
                }
                fetch
            },
        }
    }

    /// Merge one backfill page into the home timeline. Returns the media
    /// URLs the caller must fetch.
    pub fn handle_backfill_home(&mut self, page: Vec<Status>) -> (fetch: Vec<String>)
        requires
            old(self).wf(),
        ensures
            final(self).wf(),
            final(self).token == old(self).token,
            final(self).cache.statuses() == ingest_statuses(old(self).cache.statuses(), page@),
            final(self).cache.notifications() == old(self).cache.notifications(),
            final(self).home.ids() == append_all(old(self).home.ids(), page@),
            final(self).home.spec_skip() == old(self).home.spec_skip(),
            !final(self).home.is_loading(),
            final(self).notifications == old(self).notifications,
            final(self).explore == old(self).explore,
            final(self).local == old(self).local,
            final(self).federated == old(self).federated,
            fetch@.map_values(|x: String| x@) == batch_plan(
                old(self).media.handles(),
                old(self).media.pending(),
                page_urls(page@),
            ),
            final(self).media.handles() == old(self).media.handles(),
            final(self).media.pending() == old(self).media.pending() + fetch@.map_values(
                |x: String| x@,
            ),
    {
        ingest_backfill_page(&mut self.cache, &mut self.home, &mut self.media, page)
    }

    /// Merge one backfill page into the notifications timeline.
    pub fn handle_backfill_notifications(&mut self, page: Vec<Notification>) -> (fetch: Vec<
        String,
    >)
        requires
            old(self).wf(),
        ensures
            final(self).wf(),
            final(self).token == old(self).token,
            final(self).cache.statuses() == ingest_note_statuses(
                old(self).cache.statuses(),
                page@,
            ),
            final(self).cache.notifications() == ingest_notifications(
                old(self).cache.notifications(),
                page@,
            ),
            final(self).notifications.ids() == append_all_notes(
                old(self).notifications.ids(),
                page@,
            ),
            final(self).notifications.spec_skip() == old(self).notifications.spec_skip(),
            !final(self).notifications.is_loading(),
            final(self).home == old(self).home,
            final(self).explore == old(self).explore,
            final(self).local == old(self).local,
            final(self).federated == old(self).federated,
            fetch@.map_values(|x: String| x@) == batch_plan(
                old(self).media.handles(),
                old(self).media.pending(),
                note_page_urls(page@),
            ),
            final(self).media.handles() == old(self).media.handles(),
            final(self).media.pending() == old(self).media.pending() + fetch@.map_values(
                |x: String| x@,
            ),
    {
        ingest_notification_page(&mut self.cache, &mut self.notifications, &mut self.media, page)
    }

    /// Merge one page into the public timeline the event belongs to.
    pub fn handle_backfill_public(&mut self, timeline: &TimelineType, page: Vec<Status>) -> (fetch:
        Vec<String>)
        requires
            old(self).wf(),
        ensures
            final(self).wf(),
            final(self).token == old(self).token,
            final(self).cache.statuses() == ingest_statuses(old(self).cache.statuses(), page@),
            final(self).cache.notifications() == old(self).cache.notifications(),
            final(self).home == old(self).home,
            final(self).notifications == old(self).notifications,
            match *timeline {
                TimelineType::Public => {
                    &&& final(self).explore.ids() == append_all(old(self).explore.ids(), page@)
                    &&& final(self).explore.spec_skip() == old(self).explore.spec_skip()
                    &&& !final(self).explore.is_loading()
                    &&& final(self).local == old(self).local
                    &&& final(self).federated == old(self).federated
                },
                TimelineType::Local => {
                    &&& final(self).local.ids() == append_all(old(self).local.ids(), page@)
                    &&& final(self).local.spec_skip() == old(self).local.spec_skip()
                    &&& !final(self).local.is_loading()
                    &&& final(self).explore == old(self).explore
                    &&& final(self).federated == old(self).federated
                },
                TimelineType::Remote => {
                    &&& final(self).federated.ids() == append_all(old(self).federated.ids(), page@)
                    &&& final(self).federated.spec_skip() == old(self).federated.spec_skip()
                    &&& !final(self).federated.is_loading()
                    &&& final(self).explore == old(self).explore
                    &&& final(self).local == old(self).local
                },
            },
            fetch@.map_values(|x: String| x@) == batch_plan(
                old(self).media.handles(),
                old(self).media.pending(),
                page_urls(page@),
            ),
            final(self).media.handles() == old(self).media.handles(),
            final(self).media.pending() == old(self).media.pending() + fetch@.map_values(
                |x: String| x@,
            ),
    {
        match timeline {
            TimelineType::Public => ingest_backfill_page(
                &mut self.cache,
                &mut self.explore,
                &mut self.media,
                page,
            ),
            TimelineType::Local => ingest_backfill_page(
                &mut self.cache,
                &mut self.local,
                &mut self.media,
                page,
            ),
            TimelineType::Remote => ingest_backfill_page(
                &mut self.cache,
                &mut self.federated,
                &mut self.media,
                page,
            ),
        }
    }

    /// Log out: drop the token, clear both caches and every feed.
    pub fn logout(&mut self)
        ensures
            final(self).wf(),
            final(self).is_cleared(),
            final(self).token@ == Seq::<char>::empty(),
    {
        self.token = String::new();
        self.cache.clear();
        self.media.clear();
        self.home.clear();
        self.notifications.clear();
        self.explore.clear();
        self.local.clear();
        self.federated.clear();
    }
}

/// The status map after a whole page of statuses is stored, in page order.
pub open spec fn ingest_statuses(m: Map<Seq<char>, Status>, page: Seq<Status>) -> Map<
    Seq<char>,
    Status,
>
    decreases page.len(),
{
    if page.len() == 0 {
        m
    } else {
        put_status_map(ingest_statuses(m, page.drop_last()), page.last())
    }
}

/// A feed's ids after a whole page of statuses is offered at the back, in
/// page order.
pub open spec fn append_all(ids: Seq<Seq<char>>, page: Seq<Status>) -> Seq<Seq<char>>
    decreases page.len(),
{
    if page.len() == 0 {
        ids
    } else {
        append_id(append_all(ids, page.drop_last()), page.last().id@)
    }
}

/// Every media URL a page of statuses references, in page order.
pub open spec fn page_urls(page: Seq<Status>) -> Seq<Seq<char>>
    decreases page.len(),
{
    if page.len() == 0 {
        seq![]
    } else {
        page_urls(page.drop_last()) + status_image_urls(page.last())
    }
}

/// The status map after the statuses embedded in a page of notifications are
/// stored, in page order.
pub open spec fn ingest_note_statuses(m: Map<Seq<char>, Status>, page: Seq<Notification>) -> Map<
    Seq<char>,
    Status,
>
    decreases page.len(),
{
    if page.len() == 0 {
        m
    } else {
        let prior = ingest_note_statuses(m, page.drop_last());
        match page.last().status {
            StatusLink::Embedded(s) => put_status_map(prior, *s),
            _ => prior,
        }
    }
}

/// The notification map after a whole page of notifications is stored, in
/// page order.
pub open spec fn ingest_notifications(
    m: Map<Seq<char>, Notification>,
    page: Seq<Notification>,
) -> Map<Seq<char>, Notification>
    decreases page.len(),
{
    if page.len() == 0 {
        m
    } else {
        ingest_notifications(m, page.drop_last()).insert(
            page.last().id@,
            stored_notification(page.last()),
        )
    }
}

/// A feed's ids after a whole page of notifications is offered at the back.
pub open spec fn append_all_notes(ids: Seq<Seq<char>>, page: Seq<Notification>) -> Seq<Seq<char>>
    decreases page.len(),
{
    if page.len() == 0 {
        ids
    } else {
        append_id(append_all_notes(ids, page.drop_last()), page.last().id@)
    }
}

/// Every media URL a page of notifications references, in page order.
pub open spec fn note_page_urls(page: Seq<Notification>) -> Seq<Seq<char>>
    decreases page.len(),
{
    if page.len() == 0 {
        seq![]
    } else {
        note_page_urls(page.drop_last()) + notification_image_urls(page.last())
    }
}

/// An id a feed holds is still held after any id is offered at the back.
proof fn lemma_append_id_keeps(ids: Seq<Seq<char>>, id: Seq<char>, x: Seq<char>)
    requires
        ids.contains(x),
    ensures
        append_id(ids, id).contains(x),
{
    if !ids.contains(id) {
        let i = choose|i: int| 0 <= i < ids.len() && ids[i] == x;
        assert(ids.push(id)[i] == x);
    }
}

/// An id a feed holds is still held after a whole page is offered.
proof fn lemma_append_all_keeps(ids: Seq<Seq<char>>, page: Seq<Status>, x: Seq<char>)
    requires
        ids.contains(x),
    ensures
        append_all(ids, page).contains(x),
    decreases page.len(),
{
    if page.len() > 0 {
        lemma_append_all_keeps(ids, page.drop_last(), x);
        lemma_append_id_keeps(append_all(ids, page.drop_last()), page.last().id@, x);
    }
}

/// After a page is offered, the feed holds every id of the page.
proof fn lemma_append_all_covers(ids: Seq<Seq<char>>, page: Seq<Status>, i: int)
    requires
        0 <= i < page.len(),
    ensures
        append_all(ids, page).contains(page[i].id@),
    decreases page.len(),
{
    let prior = append_all(ids, page.drop_last());
    let u = page.last().id@;
    if i == page.len() - 1 {
        if !prior.contains(u) {
            assert(prior.push(u)[prior.len() as int] == u);
        }
    } else {
        assert(page.drop_last()[i] == page[i]);
        lemma_append_all_covers(ids, page.drop_last(), i);
        lemma_append_id_keeps(prior, u, page[i].id@);
    }
}

/// Offering a page whose every id the feed already holds changes nothing.
proof fn lemma_append_all_absorbed(ids: Seq<Seq<char>>, page: Seq<Status>)
    requires
        forall|i: int| 0 <= i < page.len() ==> ids.contains(#[trigger] page[i].id@),
    ensures
        append_all(ids, page) == ids,
    decreases page.len(),
{
    if page.len() > 0 {
        assert(forall|i: int|
            0 <= i < page.drop_last().len() ==> ids.contains(#[trigger] page.drop_last()[i].id@));
        lemma_append_all_absorbed(ids, page.drop_last());
        assert(ids.contains(page[page.len() - 1].id@));
    }
}

/// Replay safety: a backfill page delivered twice — as after a stream
/// reconnect that replays what was already seen — leaves the feed exactly as
/// one delivery does. The dedup invariant makes the replay harmless.
pub proof fn lemma_backfill_replay_safe(ids: Seq<Seq<char>>, page: Seq<Status>)
    ensures
        append_all(append_all(ids, page), page) == append_all(ids, page),
{
    let once = append_all(ids, page);
    assert forall|i: int| 0 <= i < page.len() implies once.contains(#[trigger] page[i].id@) by {
        lemma_append_all_covers(ids, page, i);
    }
    lemma_append_all_absorbed(once, page);
}

/// Ingest one backfill page of statuses into a timeline: store each status
/// canonically, splice its id at the back of the feed in page order, mark
/// the page's fetch as completed, and plan the fetches for the media the
/// page references. Returns the URLs the caller must fetch (each uncached,
/// not already in flight, planned once).
pub fn ingest_backfill_page(
    cache: &mut EntityCache,
    feed: &mut Feed,
    media: &mut MediaCache,
    page: Vec<Status>,
) -> (fetch: Vec<String>)
    requires
        old(cache).wf(),
        old(feed).wf(),
        old(media).wf(),
    ensures
        final(cache).wf(),
        final(feed).wf(),
        final(media).wf(),
        final(cache).statuses() == ingest_statuses(old(cache).statuses(), page@),
        final(cache).notifications() == old(cache).notifications(),
        final(feed).ids() == append_all(old(feed).ids(), page@),
        final(feed).spec_skip() == old(feed).spec_skip(),
        !final(feed).is_loading(),
        fetch@.map_values(|s: String| s@) == batch_plan(
            old(media).handles(),
            old(media).pending(),
            page_urls(page@),
        ),
        final(media).handles() == old(media).handles(),
        final(media).pending() == old(media).pending() + fetch@.map_values(|s: String| s@),
{
    let ghost page0 = page@;
    let ghost stat0 = cache.statuses();
    let ghost notes0 = cache.notifications();
    let ghost ids0 = feed.ids();
    let ghost skip0 = feed.spec_skip();
    let ghost loading0 = feed.is_loading();
    let mut rest = page;
    let mut urls: Vec<String> = Vec::new();
    let ghost mut done: int = 0;
    proof {
        assert(rest@ =~= page0.subrange(0, page0.len() as int));
        assert(cache.statuses() =~= ingest_statuses(stat0, page0.take(0)));
        assert(feed.ids() =~= append_all(ids0, page0.take(0)));
        assert(urls@.map_values(|s: String| s@) =~= page_urls(page0.take(0)));
    }
    while rest.len() > 0
        invariant
            0 <= done <= page0.len(),
            rest@ == page0.subrange(done, page0.len() as int),
            cache.wf(),
            feed.wf(),
            cache.statuses() == ingest_statuses(stat0, page0.take(done)),
            cache.notifications() == notes0,
            feed.ids() == append_all(ids0, page0.take(done)),
            feed.spec_skip() == skip0,
            feed.is_loading() == loading0,
            urls@.map_values(|s: String| s@) == page_urls(page0.take(done)),
        decreases rest@.len(),
    {
        let ghost prev_urls = urls@.map_values(|s: String| s@);
        let s = rest.remove(0);
        proof {
            assert(s == page0[done]);
            assert(rest@ =~= page0.subrange(done + 1, page0.len() as int));
            assert(page0.take(done + 1).drop_last() =~= page0.take(done));
            assert(page0.take(done + 1).last() == page0[done]);
        }
        let mut u = extract_status_images(&s);
        let ghost uview = u@.map_values(|x: String| x@);
        urls.append(&mut u);
        proof {
            assert(urls@.map_values(|x: String| x@) =~= prev_urls + uview);
            assert(urls@.map_values(|x: String| x@) =~= page_urls(page0.take(done + 1)));
        }
        let id = s.id.clone();
        cache.put_status(s);
        feed.append(id);
        proof {
            assert(cache.statuses() == ingest_statuses(stat0, page0.take(done + 1)));
            assert(feed.ids() == append_all(ids0, page0.take(done + 1)));
            done = done + 1;
        }
    }
    proof {
        assert(done == page0.len());
        assert(page0.take(done) =~= page0);
    }
    feed.complete_page();
    media.plan_batch(&urls)
}

/// Ingest one live status: store it canonically, splice its id at the front
/// of the feed, and plan the fetches for the media it references. Returns
/// the URLs the caller must fetch.
pub fn ingest_live_status(
    cache: &mut EntityCache,
    feed: &mut Feed,
    media: &mut MediaCache,
    status: Status,
) -> (fetch: Vec<String>)
    requires
        old(cache).wf(),
        old(feed).wf(),
        old(media).wf(),
    ensures
        final(cache).wf(),
        final(feed).wf(),
        final(media).wf(),
        final(cache).statuses() == put_status_map(old(cache).statuses(), status),
        final(cache).notifications() == old(cache).notifications(),
        final(feed).ids() == crate::feed::prepend_id(old(feed).ids(), status.id@),
        final(feed).spec_skip() == old(feed).spec_skip(),
        final(feed).is_loading() == old(feed).is_loading(),
        fetch@.map_values(|s: String| s@) == batch_plan(
            old(media).handles(),
            old(media).pending(),
            status_image_urls(status),
        ),
        final(media).handles() == old(media).handles(),
        final(media).pending() == old(media).pending() + fetch@.map_values(|s: String| s@),
{
    let urls = extract_status_images(&status);
    let id = status.id.clone();
    cache.put_status(status);
    feed.prepend(id);
    media.plan_batch(&urls)
}

/// Ingest one live notification: store it canonically (its embedded status
/// first), splice its id at the front of the notifications feed, and plan
/// the fetches for the media it references.
pub fn ingest_live_notification(
    cache: &mut EntityCache,
    feed: &mut Feed,
    media: &mut MediaCache,
    note: Notification,
) -> (fetch: Vec<String>)
    requires
        old(cache).wf(),
        old(feed).wf(),
        old(media).wf(),
    ensures
        final(cache).wf(),
        final(feed).wf(),
        final(media).wf(),
        final(cache).notifications() == old(cache).notifications().insert(
            note.id@,
            stored_notification(note),
        ),
        final(cache).statuses() == match note.status {
            StatusLink::Embedded(s) => put_status_map(old(cache).statuses(), *s),
            _ => old(cache).statuses(),
        },
        final(feed).ids() == crate::feed::prepend_id(old(feed).ids(), note.id@),
        final(feed).spec_skip() == old(feed).spec_skip(),
        final(feed).is_loading() == old(feed).is_loading(),
        fetch@.map_values(|s: String| s@) == batch_plan(
            old(media).handles(),
            old(media).pending(),
            notification_image_urls(note),
        ),
        final(media).handles() == old(media).handles(),
        final(media).pending() == old(media).pending() + fetch@.map_values(|s: String| s@),
{
    let urls = extract_notification_images(&note);
    let id = note.id.clone();
    cache.put_notification(note);
    feed.prepend(id);
    media.plan_batch(&urls)
}

/// Ingest one backfill page of notifications: store each canonically, splice
/// its id at the back of the notifications feed in page order, mark the
/// page's fetch as completed, and plan the media fetches.
pub fn ingest_notification_page(
    cache: &mut EntityCache,
    feed: &mut Feed,
    media: &mut MediaCache,
    page: Vec<Notification>,
) -> (fetch: Vec<String>)
    requires
        old(cache).wf(),
        old(feed).wf(),
        old(media).wf(),
    ensures
        final(cache).wf(),
        final(feed).wf(),
        final(media).wf(),
        final(cache).statuses() == ingest_note_statuses(old(cache).statuses(), page@),
        final(cache).notifications() == ingest_notifications(old(cache).notifications(), page@),
        final(feed).ids() == append_all_notes(old(feed).ids(), page@),
        final(feed).spec_skip() == old(feed).spec_skip(),
        !final(feed).is_loading(),
        fetch@.map_values(|s: String| s@) == batch_plan(
            old(media).handles(),
            old(media).pending(),
            note_page_urls(page@),
        ),
        final(media).handles() == old(media).handles(),
        final(media).pending() == old(media).pending() + fetch@.map_values(|s: String| s@),
{
    let ghost page0 = page@;
    let ghost stat0 = cache.statuses();
    let ghost notes0 = cache.notifications();
    let ghost ids0 = feed.ids();
    let ghost skip0 = feed.spec_skip();
    let ghost loading0 = feed.is_loading();
    let mut rest = page;
    let mut urls: Vec<String> = Vec::new();
    let ghost mut done: int = 0;
    proof {
        assert(rest@ =~= page0.subrange(0, page0.len() as int));
        assert(cache.statuses() =~= ingest_note_statuses(stat0, page0.take(0)));
        assert(cache.notifications() =~= ingest_notifications(notes0, page0.take(0)));
        assert(feed.ids() =~= append_all_notes(ids0, page0.take(0)));
        assert(urls@.map_values(|s: String| s@) =~= note_page_urls(page0.take(0)));
    }
    while rest.len() > 0
        invariant
            0 <= done <= page0.len(),
            rest@ == page0.subrange(done, page0.len() as int),
            cache.wf(),
            feed.wf(),
            cache.statuses() == ingest_note_statuses(stat0, page0.take(done)),
            cache.notifications() == ingest_notifications(notes0, page0.take(done)),
            feed.ids() == append_all_notes(ids0, page0.take(done)),
            feed.spec_skip() == skip0,
            feed.is_loading() == loading0,
            urls@.map_values(|s: String| s@) == note_page_urls(page0.take(done)),
        decreases rest@.len(),
    {
        let ghost prev_urls = urls@.map_values(|s: String| s@);
        let n = rest.remove(0);
        proof {
            assert(n == page0[done]);
            assert(rest@ =~= page0.subrange(done + 1, page0.len() as int));
            assert(page0.take(done + 1).drop_last() =~= page0.take(done));
            assert(page0.take(done + 1).last() == page0[done]);
        }
        let mut u = extract_notification_images(&n);
        let ghost uview = u@.map_values(|x: String| x@);
        urls.append(&mut u);
        proof {
            assert(urls@.map_values(|x: String| x@) =~= prev_urls + uview);
            assert(urls@.map_values(|x: String| x@) =~= note_page_urls(page0.take(done + 1)));
        }
        let id = n.id.clone();
        cache.put_notification(n);
        feed.append(id);
        proof {
            assert(cache.statuses() == ingest_note_statuses(stat0, page0.take(done + 1)));
            assert(cache.notifications() == ingest_notifications(notes0, page0.take(done + 1)));
            assert(feed.ids() == append_all_notes(ids0, page0.take(done + 1)));
            done = done + 1;
        }
    }
    proof {
        assert(done == page0.len());
        assert(page0.take(done) =~= page0);
    }
    feed.complete_page();
    media.plan_batch(&urls)
}

} // verus!
