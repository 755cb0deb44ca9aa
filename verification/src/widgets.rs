//! Presentation options for rendering a status.

use vstd::prelude::*;

verus! {

/// Which parts of a status a view renders.
#[derive(Debug, Copy, Clone, PartialEq, Eq, Structural)]
pub struct StatusOptions {
    media: bool,
    tags: bool,
    actions: bool,
    expand: bool,
}

impl StatusOptions {
    /// Whether attached media are rendered.
    pub closed spec fn spec_media(self) -> bool {
        self.media
    }

    /// Whether hashtags are rendered.
    pub closed spec fn spec_tags(self) -> bool {
        self.tags
    }

    /// Whether action buttons are rendered.
    pub closed spec fn spec_actions(self) -> bool {
        self.actions
    }

    /// Whether the status can be expanded.
    pub closed spec fn spec_expand(self) -> bool {
        self.expand
    }

    pub fn new(media: bool, tags: bool, actions: bool, expand: bool) -> (r: StatusOptions)
        ensures
            r.spec_media() == media,
            r.spec_tags() == tags,
            r.spec_actions() == actions,
            r.spec_expand() == expand,
    {
        StatusOptions { media, tags, actions, expand }
    }

    /// Render everything.
    pub fn all() -> (r: StatusOptions)
        ensures
            r.spec_media() && r.spec_tags() && r.spec_actions() && r.spec_expand(),
    {
        StatusOptions::new(true, true, true, true)
    }

    /// Render the bare status.
    pub fn none() -> (r: StatusOptions)
        ensures
            !r.spec_media() && !r.spec_tags() && !r.spec_actions() && !r.spec_expand(),
    {
        StatusOptions::new(false, false, false, false)
    }
}

} // verus!
