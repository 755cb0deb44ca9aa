use toot_core::config::instance;
use toot_core::config::TootConfig;
use toot_core::entities::Flag;
use toot_core::pages::Page;
use toot_core::pages::TimelineType;
use toot_core::widgets::StatusOptions;

#[test]
fn default_page_is_home() {
    assert_eq!(Page::default(), Page::Home);
}

#[test]
fn variants_list_every_page_in_order() {
    assert_eq!(
        Page::variants(),
        vec![
            Page::Home,
            Page::Notifications,
            Page::Search,
            Page::Favorites,
            Page::Bookmarks,
            Page::Hashtags,
            Page::Lists,
            Page::Explore,
            Page::Local,
            Page::Federated,
        ]
    );
}

#[test]
fn public_variants_need_no_authentication() {
    assert_eq!(
        Page::public_variants(),
        vec![Page::Explore, Page::Local, Page::Federated, Page::Search, Page::Hashtags]
    );
}

#[test]
fn icons_name_their_page() {
    assert_eq!(Page::Home.icon(), "user-home-symbolic");
    assert_eq!(Page::Notifications.icon(), "emblem-important-symbolic");
    assert_eq!(Page::Search.icon(), "folder-saved-search-symbolic");
    assert_eq!(Page::Favorites.icon(), "starred-symbolic");
    assert_eq!(Page::Bookmarks.icon(), "bookmark-new-symbolic");
    assert_eq!(Page::Hashtags.icon(), "lang-include-symbolic");
    assert_eq!(Page::Lists.icon(), "view-list-symbolic");
    assert_eq!(Page::Explore.icon(), "find-location-symbolic");
    assert_eq!(Page::Local.icon(), "network-server-symbolic");
    assert_eq!(Page::Federated.icon(), "network-workgroup-symbolic");
}

#[test]
fn timeline_types_map_to_request_flags() {
    assert_eq!(TimelineType::Public.local_remote(), (false, false));
    assert_eq!(TimelineType::Local.local_remote(), (true, false));
    assert_eq!(TimelineType::Remote.local_remote(), (false, true));
}

#[test]
fn status_options_hold_their_fields() {
    assert_eq!(StatusOptions::all(), StatusOptions::new(true, true, true, true));
    assert_eq!(StatusOptions::none(), StatusOptions::new(false, false, false, false));
    assert_ne!(StatusOptions::all(), StatusOptions::none());
    assert_ne!(
        StatusOptions::new(true, false, false, false),
        StatusOptions::new(false, true, false, false)
    );
}

#[test]
fn config_url_prefixes_the_scheme() {
    let config = TootConfig { server: "mastodon.social".to_string() };
    assert_eq!(config.url(), "https://mastodon.social");
}

#[test]
fn default_config_has_no_server() {
    assert_eq!(TootConfig::default().server, "");
}

#[test]
fn instance_falls_back_to_the_default_server() {
    assert_eq!(instance(String::new()), "https://mastodon.social");
    assert_eq!(instance("fosstodon.org".to_string()), "https://fosstodon.org");
}

#[test]
fn unknown_flag_offers_no_toggle() {
    // `Unknown` must not be read as `No`: no action is offered at all.
    assert_eq!(Flag::Unknown.toggle(), None);
    assert_eq!(Flag::Yes.toggle(), Some(true));
    assert_eq!(Flag::No.toggle(), Some(false));
}
