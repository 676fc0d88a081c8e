//! The two content panes and which of them is shown.
//!
//! One pane is shown at a time. What the other one holds is kept, so that
//! switching back shows it as it was.

use vstd::prelude::*;

verus! {

/// A content pane.
#[derive(Clone, Copy, Debug, PartialEq, Eq, Structural)]
pub enum Pane {
    /// The listing of a directory.
    Content,
    /// A text file.
    Text,
}

/// Which pane is shown, and the title of each.
#[derive(Debug, PartialEq, Eq)]
pub struct Layout {
    active: Pane,
    content_title: String,
    text_title: String,
}

/// What a `Layout` stands for.
#[verifier::ext_equal]
pub struct LayoutView {
    pub active: Pane,
    pub content_title: Seq<char>,
    pub text_title: Seq<char>,
}

impl LayoutView {
    /// The layout at the start: the listing is shown, and the panes are
    /// called "Gophermap" and "Textfile".
    pub open spec fn initial() -> LayoutView {
        LayoutView { active: Pane::Content, content_title: "Gophermap"@, text_title: "Textfile"@ }
    }

    /// The layout with `pane` shown.
    pub open spec fn set_view(self, pane: Pane) -> LayoutView {
        LayoutView { active: pane, ..self }
    }

    /// The layout with `pane` called `title`.
    pub open spec fn set_title(self, pane: Pane, title: Seq<char>) -> LayoutView {
        match pane {
            Pane::Content => LayoutView { content_title: title, ..self },
            Pane::Text => LayoutView { text_title: title, ..self },
        }
    }

    /// The title of `pane`.
    pub open spec fn title(self, pane: Pane) -> Seq<char> {
        match pane {
            Pane::Content => self.content_title,
            Pane::Text => self.text_title,
        }
    }
}

impl View for Layout {
    type V = LayoutView;

    closed spec fn view(&self) -> LayoutView {
        LayoutView {
            active: self.active,
            content_title: self.content_title@,
            text_title: self.text_title@,
        }
    }
}

impl Layout {
    /// The layout at the start.
    pub fn new() -> (r: Layout)
        ensures
            r@ == LayoutView::initial(),
    {
        Layout {
            active: Pane::Content,
            content_title: "Gophermap".to_owned(),
            text_title: "Textfile".to_owned(),
        }
    }

    /// Shows `pane`. The titles stay.
    pub fn set_view(&mut self, pane: Pane)
        ensures
            final(self)@ == old(self)@.set_view(pane),
    {
        self.active = pane;
    }

    /// Calls `pane` by `title`. Which pane is shown stays.
    pub fn set_title(&mut self, pane: Pane, title: String)
        ensures
            final(self)@ == old(self)@.set_title(pane, title@),
    {
        match pane {
            Pane::Content => {
                self.content_title = title;
            },
            Pane::Text => {
                self.text_title = title;
            },
        }
    }

    /// The pane that is shown.
    pub fn active(&self) -> (r: Pane)
        ensures
            r == self@.active,
    {
        self.active
    }

    /// The title of `pane`.
    pub fn title(&self, pane: Pane) -> (r: &str)
        ensures
            r@ == self@.title(pane),
    {
        match pane {
            Pane::Content => self.content_title.as_str(),
            Pane::Text => self.text_title.as_str(),
        }
    }
}

} // verus!
