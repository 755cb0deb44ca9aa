//! The navigable pages of the client and which of them a session may see.

use vstd::prelude::*;

verus! {

/// A page backed by a timeline.
pub trait MastodonPage {
    /// Whether the session behind the page carries an access token.
    fn is_authenticated(&self) -> bool;
}

/// A navigable page.
#[derive(Debug, Clone, PartialEq, Eq, Structural)]
pub enum Page {
    Home,
    Notifications,
    Search,
    Favorites,
    Bookmarks,
    Hashtags,
    Lists,
    Explore,
    Local,
    Federated,
}

impl Default for Page {
    /// The page a fresh session lands on.
    fn default() -> (r: Page)
        ensures
            r == Page::Home,
    {
        Page::Home
    }
}

/// Every page, in navigation order.
pub open spec fn all_pages() -> Seq<Page> {
    seq![
        Page::Home,
        Page::Notifications,
        Page::Search,
        Page::Favorites,
        Page::Bookmarks,
        Page::Hashtags,
        Page::Lists,
        Page::Explore,
        Page::Local,
        Page::Federated,
    ]
}

/// The pages that need no authentication, in navigation order.
pub open spec fn public_pages() -> Seq<Page> {
    seq![Page::Explore, Page::Local, Page::Federated, Page::Search, Page::Hashtags]
}

impl Page {
    /// The pages an unauthenticated session may show.
    pub fn public_variants() -> (r: Vec<Page>)
        ensures
            r@ == public_pages(),
    {
        let r = vec![Page::Explore, Page::Local, Page::Federated, Page::Search, Page::Hashtags];
        proof {
            assert(r@ =~= public_pages());
        }
        r
    }

    /// Every page, for an authenticated session.
    pub fn variants() -> (r: Vec<Page>)
        ensures
            r@ == all_pages(),
    {
        let r = vec![
            Page::Home,
            Page::Notifications,
            Page::Search,
            Page::Favorites,
            Page::Bookmarks,
            Page::Hashtags,
            Page::Lists,
            Page::Explore,
            Page::Local,
            Page::Federated,
        ];
        proof {
            assert(r@ =~= all_pages());
        }
        r
    }

    /// The name of the icon that represents the page.
    pub fn icon(&self) -> (r: &str)
        ensures
            r@ == match *self {
                Page::Home => "user-home-symbolic"@,
                Page::Notifications => "emblem-important-symbolic"@,
                Page::Search => "folder-saved-search-symbolic"@,
                Page::Favorites => "starred-symbolic"@,
                Page::Bookmarks => "bookmark-new-symbolic"@,
                Page::Hashtags => "lang-include-symbolic"@,
                Page::Lists => "view-list-symbolic"@,
                Page::Explore => "find-location-symbolic"@,
                Page::Local => "network-server-symbolic"@,
                Page::Federated => "network-workgroup-symbolic"@,
            },
    {
        match self {
            Page::Home => "user-home-symbolic",
            Page::Notifications => "emblem-important-symbolic",
            Page::Search => "folder-saved-search-symbolic",
            Page::Favorites => "starred-symbolic",
            Page::Bookmarks => "bookmark-new-symbolic",
            Page::Hashtags => "lang-include-symbolic",
            Page::Lists => "view-list-symbolic",
            Page::Explore => "find-location-symbolic",
            Page::Local => "network-server-symbolic",
            Page::Federated => "network-workgroup-symbolic",
        }
    }
}

/// Which public timeline a page shows.
#[derive(Debug, Clone, PartialEq, Eq, Structural)]
pub enum TimelineType {
    /// The whole known network.
    Public,
    /// This server only.
    Local,
    /// Other servers only.
    Remote,
}

impl TimelineType {
    /// The `(local, remote)` pair the public-timeline request takes for this
    /// timeline.
    pub fn local_remote(&self) -> (r: (bool, bool))
        ensures
            r == match *self {
                TimelineType::Public => (false, false),
                TimelineType::Local => (true, false),
                TimelineType::Remote => (false, true),
            },
    {
        match self {
            TimelineType::Public => (false, false),
            TimelineType::Local => (true, false),
            TimelineType::Remote => (false, true),
        }
    }
}

/// An action of the application menu.
#[derive(Debug, Clone, Copy, PartialEq, Eq, Structural)]
pub enum MenuAction {
    About,
}

} // verus!
