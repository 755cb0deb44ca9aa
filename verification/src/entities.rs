//! The entity records the engine reconciles: accounts, posts (statuses) and
//! notifications, as plain values.
//!
//! Records are complete snapshots as received; a record is superseded only by
//! a later record with the same id (last write wins). A status may carry
//! another status (the reblogged original) either embedded by value, as it
//! arrives from the wire, or as a lightweight reference by id, the form the
//! entity cache stores.

use vstd::prelude::*;

verus! {

/// A server-disclosed boolean that is only known to authenticated viewers:
/// `Unknown` must never be read as `No`.
#[derive(Debug, Clone, Copy, PartialEq, Eq, Structural)]
pub enum Flag {
    Yes,
    No,
    Unknown,
}

impl Flag {
    /// The toggle a reblog/favourite button may request: `Some(cur)` when the
    /// server disclosed the current state `cur` (so `cur == true` asks for an
    /// undo), `None` when the state is unknown and no action is offered.
    pub fn toggle(&self) -> (r: Option<bool>)
        ensures
            r == match *self {
                Flag::Yes => Some(true),
                Flag::No => Some(false),
                Flag::Unknown => None::<bool>,
            },
    {
        match self {
            Flag::Yes => Some(true),
            Flag::No => Some(false),
            Flag::Unknown => None,
        }
    }
}

/// A name/value pair shown on a profile.
#[derive(Debug, Clone, PartialEq)]
pub struct AccountField {
    pub name: String,
    pub value: String,
}

/// An author profile, an immutable snapshot as received.
#[derive(Debug, Clone, PartialEq)]
pub struct Account {
    pub id: String,
    pub username: String,
    pub display_name: String,
    /// Avatar image URL.
    pub avatar: String,
    /// Header image URL.
    pub header: String,
    /// Bio text, raw markup.
    pub note: String,
    pub followers_count: u64,
    pub following_count: u64,
    pub statuses_count: u64,
    pub fields: Vec<AccountField>,
    /// Creation time, seconds since the Unix epoch.
    pub created_at: i64,
}

/// An attached medium: where it links and the preview image to fetch.
#[derive(Debug, Clone, PartialEq)]
pub struct MediaAttachment {
    pub url: Option<String>,
    pub preview_url: String,
}

/// A hashtag with its timeline URL.
#[derive(Debug, Clone, PartialEq)]
pub struct Tag {
    pub name: String,
    pub url: String,
}

/// A link-preview card.
#[derive(Debug, Clone, PartialEq)]
pub struct Card {
    pub url: String,
    pub title: String,
    pub description: String,
    /// Preview image URL, not yet validated.
    pub image: Option<String>,
}

/// A cross-reference to another status: absent, embedded by value (as
/// received from the wire), or by id (the canonical stored form, resolved
/// through the entity cache).
#[derive(Debug, PartialEq)]
pub enum StatusLink {
    Absent,
    Embedded(Box<Status>),
    ById(String),
}

/// A post.
#[derive(Debug, PartialEq)]
pub struct Status {
    pub id: String,
    pub account: Account,
    /// Body, raw markup.
    pub content: String,
    /// The reblogged original, when this status is a boost.
    pub reblog: StatusLink,
    pub media_attachments: Vec<MediaAttachment>,
    pub tags: Vec<Tag>,
    pub card: Option<Card>,
    pub replies_count: u64,
    pub reblogs_count: u64,
    pub favourites_count: u64,
    pub reblogged: Flag,
    pub favourited: Flag,
}

/// What a notification reports.
#[derive(Debug, Clone, Copy, PartialEq, Eq, Structural)]
pub enum NotificationType {
    Mention,
    Reblog,
    Favourite,
    Follow,
    FollowRequest,
    Poll,
    Status,
    Update,
    SignUp,
    Report,
}

/// A notification, with the status it embeds where its type carries one.
#[derive(Debug, PartialEq)]
pub struct Notification {
    pub id: String,
    pub notification_type: NotificationType,
    pub account: Account,
    pub status: StatusLink,
}

} // verus!
