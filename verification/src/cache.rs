//! The canonical, id-keyed entity cache.
//!
//! Storing a status whose reblog is embedded splits the write: the reblogged
//! original is stored first under its own id, then the outer status is stored
//! with the reblog replaced by a reference by id. A later update to the
//! original is thereby visible to every feed that reaches it through a
//! reblog, instead of being frozen inside a stale embedded copy. The same
//! splitting applies to a notification's embedded status.

use vstd::prelude::*;

use crate::entities::Notification;
use crate::entities::Status;
use crate::entities::StatusLink;
use crate::idmap::IdMap;

verus! {

/// The form a status is stored in: an embedded reblog gives way to a
/// reference by id.
pub open spec fn stored_status(s: Status) -> Status {
    match s.reblog {
        StatusLink::Embedded(r) => Status { reblog: StatusLink::ById((*r).id), ..s },
        _ => s,
    }
}

/// The form a notification is stored in: an embedded status gives way to a
/// reference by id.
pub open spec fn stored_notification(n: Notification) -> Notification {
    match n.status {
        StatusLink::Embedded(s) => Notification { status: StatusLink::ById((*s).id), ..n },
        _ => n,
    }
}

/// The status map after storing `s`: any embedded reblog is stored first,
/// under its own id, then `s` itself in stored form.
pub open spec fn put_status_map(m: Map<Seq<char>, Status>, s: Status) -> Map<Seq<char>, Status>
    decreases s,
{
    (match s.reblog {
        StatusLink::Embedded(r) => put_status_map(m, *r),
        _ => m,
    }).insert(s.id@, stored_status(s))
}

/// What a status's reblog resolves to against a status map: the canonical
/// stored copy when the map has one, the embedded snapshot otherwise (the
/// reblog may arrive before its target was independently ingested), nothing
/// for a status that is no reblog or whose referenced target is unknown.
pub open spec fn resolve_reblog_in(m: Map<Seq<char>, Status>, s: Status) -> Option<Status> {
    match s.reblog {
        StatusLink::Absent => None,
        StatusLink::Embedded(r) => if m.contains_key((*r).id@) {
            Some(m[(*r).id@])
        } else {
            Some(*r)
        },
        StatusLink::ById(id) => if m.contains_key(id@) {
            Some(m[id@])
        } else {
            None
        },
    }
}

/// Canonical storage for posts and notifications, keyed by the entity's own
/// id.
pub struct EntityCache {
    statuses: IdMap<Status>,
    notifications: IdMap<Notification>,
}

impl EntityCache {
    /// The canonical status map.
    pub closed spec fn statuses(self) -> Map<Seq<char>, Status> {
        self.statuses.view()
    }

    /// The canonical notification map.
    pub closed spec fn notifications(self) -> Map<Seq<char>, Notification> {
        self.notifications.view()
    }

    pub closed spec fn wf(self) -> bool {
        self.statuses.wf() && self.notifications.wf()
    }

    /// An empty cache.
    pub fn new() -> (r: EntityCache)
        ensures
            r.wf(),
            r.statuses() == Map::<Seq<char>, Status>::empty(),
            r.notifications() == Map::<Seq<char>, Notification>::empty(),
    {
        EntityCache { statuses: IdMap::new(), notifications: IdMap::new() }
    }

    /// Store `s` canonically (always succeeds): an embedded reblog is stored
    /// first under its own id, then `s` with the reblog as a reference.
    pub fn put_status(&mut self, s: Status)
        requires
            old(self).wf(),
        ensures
            final(self).wf(),
            final(self).statuses() == put_status_map(old(self).statuses(), s),
            final(self).notifications() == old(self).notifications(),
        decreases s,
    {
        let ghost s0 = s;
        let Status {
            id,
            account,
            content,
            reblog,
            media_attachments,
            tags,
            card,
            replies_count,
            reblogs_count,
            favourites_count,
            reblogged,
            favourited,
        } = s;
        match reblog {
            StatusLink::Embedded(r) => {
                let inner: Status = *r;
                let rid = inner.id.clone();
                self.put_status(inner);
                let outer = Status {
                    id,
                    account,
                    content,
                    reblog: StatusLink::ById(rid),
                    media_attachments,
                    tags,
                    card,
                    replies_count,
                    reblogs_count,
                    favourites_count,
                    reblogged,
                    favourited,
                };
                proof {
                    assert(outer == stored_status(s0));
                }
                let key = outer.id.clone();
                self.statuses.insert(key, outer);
            },
            other => {
                let outer = Status {
                    id,
                    account,
                    content,
                    reblog: other,
                    media_attachments,
                    tags,
                    card,
                    replies_count,
                    reblogs_count,
                    favourites_count,
                    reblogged,
                    favourited,
                };
                proof {
                    assert(outer == stored_status(s0));
                }
                let key = outer.id.clone();
                self.statuses.insert(key, outer);
            },
        }
    }

    /// Store `n` canonically: an embedded status is delegated to
    /// `put_status`, and `n` is stored with the status as a reference.
    pub fn put_notification(&mut self, n: Notification)
        requires
            old(self).wf(),
        ensures
            final(self).wf(),
            final(self).notifications() == old(self).notifications().insert(
                n.id@,
                stored_notification(n),
            ),
            final(self).statuses() == match n.status {
                StatusLink::Embedded(s) => put_status_map(old(self).statuses(), *s),
                _ => old(self).statuses(),
            },
    {
        let ghost n0 = n;
        let Notification { id, notification_type, account, status } = n;
        match status {
            StatusLink::Embedded(s) => {
                let inner: Status = *s;
                let sid = inner.id.clone();
                self.put_status(inner);
                let note = Notification {
                    id,
                    notification_type,
                    account,
                    status: StatusLink::ById(sid),
                };
                proof {
                    assert(note == stored_notification(n0));
                }
                let key = note.id.clone();
                self.notifications.insert(key, note);
            },
            other => {
                let note = Notification { id, notification_type, account, status: other };
                proof {
                    assert(note == stored_notification(n0));
                }
                let key = note.id.clone();
                self.notifications.insert(key, note);
            },
        }
    }

    /// Pure lookup; `None` means "not yet ingested", not an error.
    pub fn get_status<'a>(&'a self, id: &String) -> (r: Option<&'a Status>)
        requires
            self.wf(),
        ensures
            match r {
                Some(v) => self.statuses().contains_key(id@) && *v == self.statuses()[id@],
                None => !self.statuses().contains_key(id@),
            },
    {
        self.statuses.get(id)
    }

    /// Pure lookup; `None` means "not yet ingested", not an error.
    pub fn get_notification<'a>(&'a self, id: &String) -> (r: Option<&'a Notification>)
        requires
            self.wf(),
        ensures
            match r {
                Some(v) => self.notifications().contains_key(id@)
                    && *v == self.notifications()[id@],
                None => !self.notifications().contains_key(id@),
            },
    {
        self.notifications.get(id)
    }

    /// The freshest copy of the status `s` reblogs: the canonical one when
    /// the cache has it, the embedded snapshot otherwise.
    pub fn resolve_reblog<'a>(&'a self, s: &'a Status) -> (r: Option<&'a Status>)
        requires
            self.wf(),
        ensures
            match r {
                Some(v) => resolve_reblog_in(self.statuses(), *s) == Some(*v),
                None => resolve_reblog_in(self.statuses(), *s) is None,
            },
    {
        match &s.reblog {
            StatusLink::Absent => None,
            StatusLink::Embedded(r) => match self.statuses.get(&r.id) {
                Some(canonical) => Some(canonical),
                None => Some(&**r),
            },
            StatusLink::ById(id) => self.statuses.get(id),
        }
    }

    /// The freshest copy of the status a notification embeds, resolved the
    /// same way as a reblog.
    pub fn resolve_status<'a>(&'a self, n: &'a Notification) -> (r: Option<&'a Status>)
        requires
            self.wf(),
        ensures
            match r {
                Some(v) => resolve_link_in(self.statuses(), n.status) == Some(*v),
                None => resolve_link_in(self.statuses(), n.status) is None,
            },
    {
        match &n.status {
            StatusLink::Absent => None,
            StatusLink::Embedded(s) => match self.statuses.get(&s.id) {
                Some(canonical) => Some(canonical),
                None => Some(&**s),
            },
            StatusLink::ById(id) => self.statuses.get(id),
        }
    }

    /// Forget every entity (logout, account switch).
    pub fn clear(&mut self)
        ensures
            final(self).wf(),
            final(self).statuses() == Map::<Seq<char>, Status>::empty(),
            final(self).notifications() == Map::<Seq<char>, Notification>::empty(),
    {
        self.statuses.clear();
        self.notifications.clear();
    }
}

/// What a status link resolves to against a status map.
pub open spec fn resolve_link_in(m: Map<Seq<char>, Status>, link: StatusLink) -> Option<Status> {
    match link {
        StatusLink::Absent => None,
        StatusLink::Embedded(s) => if m.contains_key((*s).id@) {
            Some(m[(*s).id@])
        } else {
            Some(*s)
        },
        StatusLink::ById(id) => if m.contains_key(id@) {
            Some(m[id@])
        } else {
            None
        },
    }
}

/// Storing a status splits the write: the status itself stands under its own
/// id in stored form, and an embedded reblog stands independently under its
/// id (unless the outer write itself overrode it).
pub proof fn lemma_put_status_splits(m: Map<Seq<char>, Status>, s: Status)
    ensures
        put_status_map(m, s).contains_key(s.id@),
        put_status_map(m, s)[s.id@] == stored_status(s),
        (s.reblog is Embedded && (*s.reblog->Embedded_0).id@ != s.id@) ==> {
            &&& put_status_map(m, s).contains_key((*s.reblog->Embedded_0).id@)
            &&& put_status_map(m, s)[(*s.reblog->Embedded_0).id@] == stored_status(
                *s.reblog->Embedded_0,
            )
        },
{
    if s.reblog is Embedded {
        let r = *s.reblog->Embedded_0;
        assert(put_status_map(m, s) == put_status_map(m, r).insert(s.id@, stored_status(s)));
        assert(put_status_map(m, r) == (match r.reblog {
            StatusLink::Embedded(q) => put_status_map(m, *q),
            _ => m,
        }).insert(r.id@, stored_status(r)));
    }
}

/// Reblog resolution is never stale: after a status `s` with an embedded
/// reblog is stored, and a later status `r2` with the reblogged original's id
/// is stored over it, resolving `s`'s reblog returns the canonical stored
/// copy of `r2`, not the snapshot embedded in `s`.
pub proof fn lemma_reblog_resolution_fresh(m: Map<Seq<char>, Status>, s: Status, r2: Status)
    requires
        s.reblog is Embedded,
        r2.id@ == (*s.reblog->Embedded_0).id@,
    ensures
        resolve_reblog_in(put_status_map(put_status_map(m, s), r2), s) == Some(stored_status(r2)),
{
    let m2 = put_status_map(put_status_map(m, s), r2);
    assert(m2.contains_key(r2.id@));
    assert(m2[r2.id@] == stored_status(r2));
}

} // verus!
