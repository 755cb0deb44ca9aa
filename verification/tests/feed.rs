use toot_core::feed::Feed;
use toot_core::feed::PAGE_SIZE;

fn ids(feed: &Feed) -> Vec<String> {
    feed.entries().clone()
}

#[test]
fn append_keeps_order_and_dedups() {
    let mut feed = Feed::new();
    feed.append("3".to_string());
    feed.append("1".to_string());
    feed.append("2".to_string());
    assert_eq!(ids(&feed), vec!["3", "1", "2"]);

    // Offering an id again, from either direction, is a no-op: the position
    // the first admission gave it does not move.
    feed.append("1".to_string());
    feed.prepend("1".to_string());
    assert_eq!(ids(&feed), vec!["3", "1", "2"]);
}

#[test]
fn prepend_puts_newest_first() {
    let mut feed = Feed::new();
    feed.append("old".to_string());
    feed.prepend("new".to_string());
    feed.prepend("newer".to_string());
    assert_eq!(ids(&feed), vec!["newer", "new", "old"]);
}

#[test]
fn same_id_from_backfill_and_live_appears_once() {
    let mut feed = Feed::new();
    feed.append("7".to_string());
    feed.prepend("7".to_string());
    assert_eq!(feed.len(), 1);
    assert!(feed.contains(&"7".to_string()));
}

#[test]
fn remove_deletes_only_that_id() {
    let mut feed = Feed::new();
    feed.append("3".to_string());
    feed.append("1".to_string());
    feed.append("2".to_string());
    feed.remove(&"1".to_string());
    assert_eq!(ids(&feed), vec!["3", "2"]);
}

#[test]
fn remove_absent_id_is_a_noop() {
    let mut feed = Feed::new();
    feed.append("3".to_string());
    feed.append("2".to_string());
    feed.remove(&"9".to_string());
    assert_eq!(ids(&feed), vec!["3", "2"]);
}

#[test]
fn request_more_advances_cursor_once() {
    let mut feed = Feed::new();
    assert!(feed.request_more());
    assert_eq!(feed.skip(), PAGE_SIZE);
    assert!(feed.loading());
}

#[test]
fn request_more_while_loading_changes_nothing() {
    let mut feed = Feed::new();
    assert!(feed.request_more());
    // A second request while the page is outstanding must not advance the
    // cursor nor start another fetch.
    assert!(!feed.request_more());
    assert_eq!(feed.skip(), PAGE_SIZE);
    assert!(feed.loading());
}

#[test]
fn completed_page_allows_next_request() {
    let mut feed = Feed::new();
    assert!(feed.request_more());
    feed.complete_page();
    assert!(!feed.loading());
    assert!(feed.request_more());
    assert_eq!(feed.skip(), 2 * PAGE_SIZE);
}

#[test]
fn failed_page_still_clears_loading() {
    // A failed backfill must clear the guard, or the feed could never
    // paginate again; completion is reported the same way for success and
    // failure.
    let mut feed = Feed::new();
    assert!(feed.request_more());
    feed.complete_page();
    assert!(!feed.loading());
}

#[test]
fn wants_page_on_empty_feed() {
    let feed = Feed::new();
    assert!(feed.wants_page());
}

#[test]
fn wants_no_page_when_cursor_is_satisfied() {
    let mut feed = Feed::new();
    for i in 0..PAGE_SIZE {
        feed.append(format!("id-{}", i));
    }
    // len == skip + PAGE_SIZE with skip == 0.
    assert!(!feed.wants_page());
    feed.append("one-more".to_string());
    assert!(feed.wants_page());
}

#[test]
fn clear_resets_everything() {
    let mut feed = Feed::new();
    feed.append("1".to_string());
    assert!(feed.request_more());
    feed.clear();
    assert_eq!(feed.len(), 0);
    assert_eq!(feed.skip(), 0);
    assert!(!feed.loading());
}
