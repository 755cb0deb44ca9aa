use toot_core::entities::Account;
use toot_core::entities::Card;
use toot_core::entities::Flag;
use toot_core::entities::MediaAttachment;
use toot_core::entities::Notification;
use toot_core::entities::NotificationType;
use toot_core::entities::Status;
use toot_core::entities::StatusLink;
use toot_core::urls::extract_notification_images;
use toot_core::urls::extract_status_images;

fn account(id: &str) -> Account {
    Account {
        id: id.to_string(),
        username: format!("user{}", id),
        display_name: format!("User {}", id),
        avatar: format!("https://example.com/avatar-{}.png", id),
        header: format!("https://example.com/header-{}.png", id),
        note: String::new(),
        followers_count: 0,
        following_count: 0,
        statuses_count: 0,
        fields: vec![],
        created_at: 0,
    }
}

fn status(id: &str) -> Status {
    Status {
        id: id.to_string(),
        account: account(id),
        content: String::new(),
        reblog: StatusLink::Absent,
        media_attachments: vec![],
        tags: vec![],
        card: None,
        replies_count: 0,
        reblogs_count: 0,
        favourites_count: 0,
        reblogged: Flag::Unknown,
        favourited: Flag::Unknown,
    }
}

fn card(image: Option<&str>) -> Card {
    Card {
        url: "https://example.com/article".to_string(),
        title: "An article".to_string(),
        description: String::new(),
        image: image.map(|s| s.to_string()),
    }
}

#[test]
fn status_images_start_with_avatar_and_header() {
    let urls = extract_status_images(&status("1"));
    assert_eq!(
        urls,
        vec![
            "https://example.com/avatar-1.png".to_string(),
            "https://example.com/header-1.png".to_string(),
        ]
    );
}

#[test]
fn attachment_previews_are_collected_in_order() {
    let mut s = status("1");
    s.media_attachments = vec![
        MediaAttachment {
            url: None,
            preview_url: "https://example.com/p1.png".to_string(),
        },
        MediaAttachment {
            url: Some("https://example.com/full.png".to_string()),
            preview_url: "https://example.com/p2.png".to_string(),
        },
    ];
    let urls = extract_status_images(&s);
    assert_eq!(urls[2], "https://example.com/p1.png");
    assert_eq!(urls[3], "https://example.com/p2.png");
    assert_eq!(urls.len(), 4);
}

#[test]
fn card_image_is_normalized_by_parsing() {
    let mut s = status("1");
    s.card = Some(card(Some("HTTPS://EXAMPLE.COM")));
    let urls = extract_status_images(&s);
    // The parser lowercases the scheme and host and adds the root path: the
    // cache key is the canonical serialization, not the raw string.
    assert_eq!(urls[2], "https://example.com/");
    assert_eq!(urls.len(), 3);
}

#[test]
fn unparseable_card_image_is_left_out() {
    let mut s = status("1");
    s.card = Some(card(Some("not a url")));
    let urls = extract_status_images(&s);
    assert_eq!(urls.len(), 2);
}

#[test]
fn card_without_image_contributes_nothing() {
    let mut s = status("1");
    s.card = Some(card(None));
    assert_eq!(extract_status_images(&s).len(), 2);
}

#[test]
fn reblog_contributes_its_own_images() {
    let mut inner = status("1");
    inner.media_attachments = vec![MediaAttachment {
        url: None,
        preview_url: "https://example.com/inner.png".to_string(),
    }];
    let mut outer = status("2");
    outer.reblog = StatusLink::Embedded(Box::new(inner));
    let urls = extract_status_images(&outer);
    assert_eq!(
        urls,
        vec![
            "https://example.com/avatar-2.png".to_string(),
            "https://example.com/header-2.png".to_string(),
            "https://example.com/avatar-1.png".to_string(),
            "https://example.com/header-1.png".to_string(),
            "https://example.com/inner.png".to_string(),
        ]
    );
}

#[test]
fn notification_images_cover_source_and_embedded_status() {
    let note = Notification {
        id: "n1".to_string(),
        notification_type: NotificationType::Mention,
        account: account("9"),
        status: StatusLink::Embedded(Box::new(status("1"))),
    };
    let urls = extract_notification_images(&note);
    assert_eq!(
        urls,
        vec![
            "https://example.com/avatar-9.png".to_string(),
            "https://example.com/header-9.png".to_string(),
            "https://example.com/avatar-1.png".to_string(),
            "https://example.com/header-1.png".to_string(),
        ]
    );
}

#[test]
fn notification_without_status_has_only_source_images() {
    let note = Notification {
        id: "n1".to_string(),
        notification_type: NotificationType::Follow,
        account: account("9"),
        status: StatusLink::Absent,
    };
    assert_eq!(extract_notification_images(&note).len(), 2);
}
