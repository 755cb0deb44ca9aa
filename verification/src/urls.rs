//! Deriving the media URLs an entity references.
//!
//! Account avatars and headers and attachment previews arrive as URLs
//! already; a link-preview card carries its image as a raw string, which is
//! admitted only if it parses as an absolute URL, and then in the parser's
//! normalized serialization, so that the media cache is keyed consistently.

use vstd::prelude::*;

use crate::entities::Card;
use crate::entities::MediaAttachment;
use crate::entities::Notification;
use crate::entities::Status;
use crate::entities::StatusLink;

verus! {

/// What `reqwest::Url::parse` makes of a string: `None` when it does not
/// parse as an absolute URL, its normalized serialization otherwise. The
/// result depends on the characters alone.
pub uninterp spec fn url_norm(s: Seq<char>) -> Option<Seq<char>>;

/// Relies on reqwest::Url::parse (the url crate) to decide whether a string
/// is an absolute URL, and on Url::as_str for the parsed URL's normalized
/// serialization.
#[verifier::external_body]
fn parse_url(s: &str) -> (r: Option<String>)
    ensures
        r is Some <==> url_norm(s@) is Some,
        r matches Some(u) ==> u@ == url_norm(s@).unwrap(),
{
    match reqwest::Url::parse(s) {
        Ok(u) => Some(u.as_str().to_owned()),
        Err(_) => None,
    }
}

/// The URL a card contributes: its image, if it has one and that image
/// parses as a URL.
pub open spec fn card_image_urls(card: Option<Card>) -> Seq<Seq<char>> {
    match card {
        Some(c) => match c.image {
            Some(img) => match url_norm(img@) {
                Some(u) => seq![u],
                None => seq![],
            },
            None => seq![],
        },
        None => seq![],
    }
}

/// The preview URL of every attachment, in order.
pub open spec fn attachment_urls(ats: Seq<MediaAttachment>) -> Seq<Seq<char>> {
    ats.map_values(|a: MediaAttachment| a.preview_url@)
}

/// The URLs an embedded status contributes: its author's avatar and header,
/// its card image, its attachment previews.
pub open spec fn embedded_status_urls(s: Status) -> Seq<Seq<char>> {
    seq![s.account.avatar@, s.account.header@] + card_image_urls(s.card) + attachment_urls(
        s.media_attachments@,
    )
}

/// Every media URL a status references, in the order it is fetched: author
/// avatar and header, the embedded reblog's contribution, card image,
/// attachment previews.
pub open spec fn status_image_urls(s: Status) -> Seq<Seq<char>> {
    seq![s.account.avatar@, s.account.header@] + (match s.reblog {
        StatusLink::Embedded(r) => embedded_status_urls(*r),
        _ => seq![],
    }) + card_image_urls(s.card) + attachment_urls(s.media_attachments@)
}

/// Every media URL a notification references: source account avatar and
/// header, then the embedded status's contribution.
pub open spec fn notification_image_urls(n: Notification) -> Seq<Seq<char>> {
    seq![n.account.avatar@, n.account.header@] + (match n.status {
        StatusLink::Embedded(s) => embedded_status_urls(*s),
        _ => seq![],
    })
}

/// Push the card's image URL, if the card has one that parses.
fn push_card_image(urls: &mut Vec<String>, card: &Option<Card>)
    ensures
        final(urls)@.map_values(|s: String| s@) == old(urls)@.map_values(|s: String| s@)
            + card_image_urls(*card),
{
    let ghost before = urls@.map_values(|s: String| s@);
    match card {
        Some(c) => match &c.image {
            Some(img) => match parse_url(img.as_str()) {
                Some(u) => {
                    let ghost uu = u@;
                    urls.push(u);
                    proof {
                        assert(urls@.map_values(|s: String| s@) =~= before + seq![uu]);
                    }
                },
                None => {
                    proof {
                        assert(urls@.map_values(|s: String| s@) =~= before + card_image_urls(
                            *card,
                        ));
                    }
                },
            },
            None => {
                proof {
                    assert(urls@.map_values(|s: String| s@) =~= before + card_image_urls(*card));
                }
            },
        },
        None => {
            proof {
                assert(urls@.map_values(|s: String| s@) =~= before + card_image_urls(*card));
            }
        },
    }
}

/// Push every attachment's preview URL, in order.
fn push_attachments(urls: &mut Vec<String>, ats: &Vec<MediaAttachment>)
    ensures
        final(urls)@.map_values(|s: String| s@) == old(urls)@.map_values(|s: String| s@)
            + attachment_urls(ats@),
{
    let ghost before = urls@.map_values(|s: String| s@);
    let n = ats.len();
    for i in 0..n
        invariant
            n == ats.len(),
            urls@.map_values(|s: String| s@) == before + attachment_urls(ats@.take(i as int)),
    {
        let ghost sofar = urls@.map_values(|s: String| s@);
        urls.push(ats[i].preview_url.clone());
        proof {
            assert(urls@.map_values(|s: String| s@) =~= sofar.push(ats@[i as int].preview_url@));
            assert(attachment_urls(ats@.take(i + 1)) =~= attachment_urls(ats@.take(i as int)).push(
                ats@[i as int].preview_url@,
            ));
            assert(before + attachment_urls(ats@.take(i + 1)) =~= (before + attachment_urls(
                ats@.take(i as int),
            )).push(ats@[i as int].preview_url@));
        }
    }
    proof {
        assert(ats@.take(n as int) =~= ats@);
    }
}

/// The author's avatar and header, then the embedded status's contribution.
fn push_embedded_status(urls: &mut Vec<String>, s: &Status)
    ensures
        final(urls)@.map_values(|s2: String| s2@) == old(urls)@.map_values(|s2: String| s2@)
            + embedded_status_urls(*s),
{
    let ghost before = urls@.map_values(|s2: String| s2@);
    urls.push(s.account.avatar.clone());
    urls.push(s.account.header.clone());
    proof {
        assert(urls@.map_values(|s2: String| s2@) =~= before + seq![
            s.account.avatar@,
            s.account.header@,
        ]);
    }
    push_card_image(urls, &s.card);
    push_attachments(urls, &s.media_attachments);
    proof {
        assert(urls@.map_values(|s2: String| s2@) =~= before + embedded_status_urls(*s));
    }
}

/// Every media URL `status` references, in fetch order: author avatar and
/// header, the embedded reblog's author avatar and header with its card
/// image and attachment previews, then the status's own card image and
/// attachment previews. A card image that does not parse as a URL is left
/// out.
pub fn extract_status_images(status: &Status) -> (urls: Vec<String>)
    ensures
        urls@.map_values(|s: String| s@) == status_image_urls(*status),
{
    let mut urls: Vec<String> = Vec::new();
    proof {
        assert(urls@.map_values(|s: String| s@) =~= Seq::<Seq<char>>::empty());
    }
    urls.push(status.account.avatar.clone());
    urls.push(status.account.header.clone());
    let ghost head = seq![status.account.avatar@, status.account.header@];
    proof {
        assert(urls@.map_values(|s: String| s@) =~= head);
    }
    match &status.reblog {
        StatusLink::Embedded(r) => {
            push_embedded_status(&mut urls, r);
        },
        _ => {},
    }
    push_card_image(&mut urls, &status.card);
    push_attachments(&mut urls, &status.media_attachments);
    proof {
        assert(urls@.map_values(|s: String| s@) =~= status_image_urls(*status));
    }
    urls
}

/// Every media URL `notification` references: source account avatar and
/// header, then — when a status is embedded — its author's avatar and
/// header, card image and attachment previews.
pub fn extract_notification_images(notification: &Notification) -> (urls: Vec<String>)
    ensures
        urls@.map_values(|s: String| s@) == notification_image_urls(*notification),
{
    let mut urls: Vec<String> = Vec::new();
    proof {
        assert(urls@.map_values(|s: String| s@) =~= Seq::<Seq<char>>::empty());
    }
    urls.push(notification.account.avatar.clone());
    urls.push(notification.account.header.clone());
    let ghost head = seq![notification.account.avatar@, notification.account.header@];
    proof {
        assert(urls@.map_values(|s: String| s@) =~= head);
    }
    match &notification.status {
        StatusLink::Embedded(s) => {
            push_embedded_status(&mut urls, s);
        },
        _ => {},
    }
    proof {
        assert(urls@.map_values(|s: String| s@) =~= notification_image_urls(*notification));
    }
    urls
}

} // verus!
