use toot_core::entities::Account;
use toot_core::entities::Flag;
use toot_core::entities::Notification;
use toot_core::entities::NotificationType;
use toot_core::entities::Status;
use toot_core::entities::StatusLink;
use toot_core::merger::LiveEvent;
use toot_core::merger::Session;
use toot_core::pages::Page;
use toot_core::pages::TimelineType;

fn account(id: &str) -> Account {
    Account {
        id: id.to_string(),
        username: format!("user{}", id),
        display_name: format!("User {}", id),
        avatar: format!("https://example.com/avatar-{}.png", id),
        header: format!("https://example.com/header-{}.png", id),
        note: String::new(),
        followers_count: 0,
        following_count: 0,
        statuses_count: 0,
        fields: vec![],
        created_at: 0,
    }
}

fn status(id: &str, favourites: u64) -> Status {
    Status {
        id: id.to_string(),
        account: account(id),
        content: format!("<p>post {}</p>", id),
        reblog: StatusLink::Absent,
        media_attachments: vec![],
        tags: vec![],
        card: None,
        replies_count: 0,
        reblogs_count: 0,
        favourites_count: favourites,
        reblogged: Flag::Unknown,
        favourited: Flag::Unknown,
    }
}

fn boost(id: &str, of: Status) -> Status {
    let mut s = status(id, 0);
    s.reblog = StatusLink::Embedded(Box::new(of));
    s
}

fn feed_ids(feed: &toot_core::feed::Feed) -> Vec<String> {
    feed.entries().clone()
}

#[test]
fn backfill_then_live_reblog_updates_the_original() {
    let mut session = Session::new("token".to_string());

    // Status A arrives by backfill.
    session.handle_backfill_home(vec![status("1", 5)]);

    // Status B, a boost of A carrying an updated favourites count, arrives
    // on the live stream.
    session.handle_live_event(LiveEvent::Update(boost("2", status("1", 99))));

    // Last write wins: the canonical copy of A reflects B's embedded reblog.
    let a = session.cache.get_status(&"1".to_string()).expect("A cached");
    assert_eq!(a.favourites_count, 99);

    // The home feed renders B before A.
    let shot = session.home.snapshot_statuses(&session.cache);
    let ids: Vec<&str> = shot.iter().map(|s| s.id.as_str()).collect();
    assert_eq!(ids, vec!["2", "1"]);
}

#[test]
fn snapshot_omits_ids_not_yet_resolved() {
    let mut session = Session::new(String::new());
    session.home.append("ghost".to_string());
    session.home.append("real".to_string());
    session.cache.put_status(status("real", 0));
    let shot = session.home.snapshot_statuses(&session.cache);
    let ids: Vec<&str> = shot.iter().map(|s| s.id.as_str()).collect();
    assert_eq!(ids, vec!["real"]);
}

#[test]
fn delete_event_removes_from_every_status_feed() {
    let mut session = Session::new("token".to_string());
    session.handle_backfill_home(vec![status("3", 0), status("1", 0), status("2", 0)]);
    session.handle_backfill_public(
        &TimelineType::Local,
        vec![status("1", 0), status("4", 0)],
    );

    let fetch = session.handle_live_event(LiveEvent::Delete("1".to_string()));
    assert!(fetch.is_empty());
    assert_eq!(feed_ids(&session.home), vec!["3", "2"]);
    assert_eq!(feed_ids(&session.local), vec!["4"]);

    // Deleting an id no feed holds is a no-op.
    session.handle_live_event(LiveEvent::Delete("9".to_string()));
    assert_eq!(feed_ids(&session.home), vec!["3", "2"]);
}

#[test]
fn notify_event_prepends_and_caches() {
    let mut session = Session::new("token".to_string());
    let note = Notification {
        id: "n1".to_string(),
        notification_type: NotificationType::Reblog,
        account: account("9"),
        status: StatusLink::Embedded(Box::new(status("1", 2))),
    };
    session.handle_live_event(LiveEvent::Notify(note));
    assert_eq!(feed_ids(&session.notifications), vec!["n1"]);
    assert!(session.cache.get_status(&"1".to_string()).is_some());
    let shot = session.notifications.snapshot_notifications(&session.cache);
    assert_eq!(shot.len(), 1);
    assert_eq!(shot[0].status, StatusLink::ById("1".to_string()));
}

#[test]
fn filters_changed_merges_nothing() {
    let mut session = Session::new("token".to_string());
    session.handle_backfill_home(vec![status("1", 0)]);
    let fetch = session.handle_live_event(LiveEvent::FiltersChanged);
    assert!(fetch.is_empty());
    assert_eq!(feed_ids(&session.home), vec!["1"]);
}

#[test]
fn duplicate_offers_across_sources_keep_one_entry() {
    let mut session = Session::new("token".to_string());
    session.handle_backfill_home(vec![status("1", 0)]);
    session.handle_live_event(LiveEvent::Update(status("1", 7)));
    // The id stays where backfill put it; the cache still takes the update.
    assert_eq!(feed_ids(&session.home), vec!["1"]);
    let s = session.cache.get_status(&"1".to_string()).expect("cached");
    assert_eq!(s.favourites_count, 7);
}

#[test]
fn live_event_plans_each_media_url_once() {
    let mut session = Session::new("token".to_string());
    let fetch = session.handle_live_event(LiveEvent::Update(status("1", 0)));
    assert_eq!(
        fetch,
        vec![
            "https://example.com/avatar-1.png".to_string(),
            "https://example.com/header-1.png".to_string(),
        ]
    );

    // The same status again: everything is already in flight, nothing to
    // fetch.
    let again = session.handle_live_event(LiveEvent::Update(status("1", 0)));
    assert!(again.is_empty());
}

#[test]
fn backfill_routes_to_the_matching_public_timeline() {
    let mut session = Session::new(String::new());
    session.handle_backfill_public(&TimelineType::Public, vec![status("p", 0)]);
    session.handle_backfill_public(&TimelineType::Local, vec![status("l", 0)]);
    session.handle_backfill_public(&TimelineType::Remote, vec![status("r", 0)]);
    assert_eq!(feed_ids(&session.explore), vec!["p"]);
    assert_eq!(feed_ids(&session.local), vec!["l"]);
    assert_eq!(feed_ids(&session.federated), vec!["r"]);
    assert!(feed_ids(&session.home).is_empty());
}

#[test]
fn backfill_notifications_append_in_page_order() {
    let mut session = Session::new("token".to_string());
    let note = |id: &str| Notification {
        id: id.to_string(),
        notification_type: NotificationType::Follow,
        account: account(id),
        status: StatusLink::Absent,
    };
    session.handle_backfill_notifications(vec![note("a"), note("b")]);
    assert_eq!(feed_ids(&session.notifications), vec!["a", "b"]);
    assert!(!session.notifications.loading());
}

#[test]
fn stream_gating_follows_the_token() {
    let anonymous = Session::new(String::new());
    assert!(!anonymous.wants_user_stream());
    let logged_in = Session::new("token".to_string());
    assert!(logged_in.wants_user_stream());
}

#[test]
fn visible_pages_follow_authentication() {
    let anonymous = Session::new(String::new());
    assert_eq!(anonymous.visible_pages(), Page::public_variants());
    let logged_in = Session::new("token".to_string());
    assert_eq!(logged_in.visible_pages(), Page::variants());
}

#[test]
fn logout_clears_the_whole_session() {
    let mut session = Session::new("token".to_string());
    session.handle_backfill_home(vec![status("1", 0)]);
    session.logout();
    assert!(!session.wants_user_stream());
    assert!(feed_ids(&session.home).is_empty());
    assert!(session.cache.get_status(&"1".to_string()).is_none());
}

#[test]
fn replayed_backfill_after_reconnect_adds_no_duplicates() {
    // A reconnect replays entities already seen; the dedup invariant makes
    // the replay safe.
    let mut session = Session::new("token".to_string());
    session.handle_backfill_home(vec![status("1", 0), status("2", 0)]);
    session.handle_backfill_home(vec![status("1", 0), status("2", 0)]);
    assert_eq!(feed_ids(&session.home), vec!["1", "2"]);
}
