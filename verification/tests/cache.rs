use toot_core::cache::EntityCache;
use toot_core::entities::Account;
use toot_core::entities::Flag;
use toot_core::entities::Notification;
use toot_core::entities::NotificationType;
use toot_core::entities::Status;
use toot_core::entities::StatusLink;

fn account(id: &str) -> Account {
    Account {
        id: id.to_string(),
        username: format!("user{}", id),
        display_name: format!("User {}", id),
        avatar: format!("https://example.com/avatar-{}.png", id),
        header: format!("https://example.com/header-{}.png", id),
        note: String::new(),
        followers_count: 0,
        following_count: 0,
        statuses_count: 0,
        fields: vec![],
        created_at: 0,
    }
}

fn status(id: &str, favourites: u64) -> Status {
    Status {
        id: id.to_string(),
        account: account(id),
        content: format!("<p>post {}</p>", id),
        reblog: StatusLink::Absent,
        media_attachments: vec![],
        tags: vec![],
        card: None,
        replies_count: 0,
        reblogs_count: 0,
        favourites_count: favourites,
        reblogged: Flag::Unknown,
        favourited: Flag::Unknown,
    }
}

fn boost(id: &str, of: Status) -> Status {
    let mut s = status(id, 0);
    s.reblog = StatusLink::Embedded(Box::new(of));
    s
}

#[test]
fn put_then_get_returns_the_status() {
    let mut cache = EntityCache::new();
    cache.put_status(status("1", 5));
    let got = cache.get_status(&"1".to_string()).expect("stored");
    assert_eq!(got.id, "1");
    assert_eq!(got.favourites_count, 5);
    assert_eq!(got.reblog, StatusLink::Absent);
}

#[test]
fn get_missing_is_none() {
    let cache = EntityCache::new();
    assert!(cache.get_status(&"nope".to_string()).is_none());
    assert!(cache.get_notification(&"nope".to_string()).is_none());
}

#[test]
fn put_overwrites_with_last_write() {
    let mut cache = EntityCache::new();
    cache.put_status(status("1", 5));
    cache.put_status(status("1", 8));
    let got = cache.get_status(&"1".to_string()).expect("stored");
    assert_eq!(got.favourites_count, 8);
}

#[test]
fn reblog_write_is_split() {
    let mut cache = EntityCache::new();
    cache.put_status(boost("2", status("1", 5)));

    // The reblogged original stands under its own id.
    let inner = cache.get_status(&"1".to_string()).expect("inner stored");
    assert_eq!(inner.favourites_count, 5);

    // The outer status holds a reference, not an owned nested copy.
    let outer = cache.get_status(&"2".to_string()).expect("outer stored");
    assert_eq!(outer.reblog, StatusLink::ById("1".to_string()));
}

#[test]
fn resolve_reblog_prefers_the_canonical_copy() {
    let mut cache = EntityCache::new();
    let s = boost("2", status("1", 5));
    cache.put_status(boost("2", status("1", 5)));

    // A later write to the original, e.g. its favourite count changing.
    cache.put_status(status("1", 99));

    // Resolving through the status that still embeds the old snapshot must
    // see the fresh canonical copy, not the frozen one.
    let resolved = cache.resolve_reblog(&s).expect("resolves");
    assert_eq!(resolved.id, "1");
    assert_eq!(resolved.favourites_count, 99);
}

#[test]
fn resolve_reblog_falls_back_to_the_snapshot() {
    // The reblog arrived before its target was independently ingested: the
    // embedded snapshot is all there is.
    let cache = EntityCache::new();
    let s = boost("2", status("1", 5));
    let resolved = cache.resolve_reblog(&s).expect("falls back");
    assert_eq!(resolved.favourites_count, 5);
}

#[test]
fn resolve_reblog_of_plain_status_is_none() {
    let cache = EntityCache::new();
    assert!(cache.resolve_reblog(&status("1", 0)).is_none());
}

#[test]
fn notification_with_status_is_split() {
    let mut cache = EntityCache::new();
    let note = Notification {
        id: "n1".to_string(),
        notification_type: NotificationType::Favourite,
        account: account("9"),
        status: StatusLink::Embedded(Box::new(status("1", 3))),
    };
    cache.put_notification(note);

    let stored_note = cache.get_notification(&"n1".to_string()).expect("stored");
    assert_eq!(stored_note.status, StatusLink::ById("1".to_string()));
    assert_eq!(stored_note.notification_type, NotificationType::Favourite);

    let embedded = cache.get_status(&"1".to_string()).expect("status stored");
    assert_eq!(embedded.favourites_count, 3);
}

#[test]
fn resolve_status_of_notification_sees_updates() {
    let mut cache = EntityCache::new();
    let note = Notification {
        id: "n1".to_string(),
        notification_type: NotificationType::Mention,
        account: account("9"),
        status: StatusLink::Embedded(Box::new(status("1", 3))),
    };
    cache.put_notification(note);
    cache.put_status(status("1", 42));

    let stored_note = Notification {
        id: "n1".to_string(),
        notification_type: NotificationType::Mention,
        account: account("9"),
        status: StatusLink::ById("1".to_string()),
    };
    let resolved = cache.resolve_status(&stored_note).expect("resolves");
    assert_eq!(resolved.favourites_count, 42);
}

#[test]
fn clear_forgets_everything() {
    let mut cache = EntityCache::new();
    cache.put_status(status("1", 5));
    cache.clear();
    assert!(cache.get_status(&"1".to_string()).is_none());
}
