//! The modal dialogs. Each kind of dialog is closed or open on its own; a
//! dialog that is opened while one of its kind is open takes its place.

use crate::address::{Address, AddressView};
use vstd::prelude::*;

verus! {

/// The kinds of dialog.
#[derive(Clone, Copy, Debug, PartialEq, Eq, Structural)]
pub enum DialogKind {
    /// Asks for a URL to open.
    Url,
    /// Asks for the query to send to a search server that was chosen in a listing.
    Query,
    /// Asks for the term to send to a search server that was chosen in the menu.
    Search,
    /// Asks for the name to save the page under.
    SaveAs,
    /// Asks for the title and the tags of a new bookmark.
    AddBookmark,
    /// Asks whether the history is to be deleted.
    ClearHistory,
    /// Shows a notice.
    Info,
}

/// The state of every kind of dialog. A dialog that is bound to an address,
/// a name or a text is open exactly while it holds one.
#[derive(Debug, PartialEq, Eq)]
pub struct Dialogs {
    pub url: bool,
    pub query: Option<Address>,
    pub search: Option<Address>,
    pub save_as: Option<String>,
    pub add_bookmark: Option<Address>,
    pub clear_history: bool,
    pub info: Option<String>,
}

/// What a `Dialogs` stands for.
#[verifier::ext_equal]
pub struct DialogsView {
    pub url: bool,
    pub query: Option<AddressView>,
    pub search: Option<AddressView>,
    pub save_as: Option<Seq<char>>,
    pub add_bookmark: Option<AddressView>,
    pub clear_history: bool,
    pub info: Option<Seq<char>>,
}

impl DialogsView {
    /// Every dialog closed.
    pub open spec fn closed() -> DialogsView {
        DialogsView {
            url: false,
            query: None,
            search: None,
            save_as: None,
            add_bookmark: None,
            clear_history: false,
            info: None,
        }
    }

    /// Whether the dialog of the given kind is open.
    pub open spec fn is_open(self, kind: DialogKind) -> bool {
        match kind {
            DialogKind::Url => self.url,
            DialogKind::Query => self.query is Some,
            DialogKind::Search => self.search is Some,
            DialogKind::SaveAs => self.save_as is Some,
            DialogKind::AddBookmark => self.add_bookmark is Some,
            DialogKind::ClearHistory => self.clear_history,
            DialogKind::Info => self.info is Some,
        }
    }

    /// The dialogs with the one of the given kind closed.
    pub open spec fn close(self, kind: DialogKind) -> DialogsView {
        match kind {
            DialogKind::Url => DialogsView { url: false, ..self },
            DialogKind::Query => DialogsView { query: None, ..self },
            DialogKind::Search => DialogsView { search: None, ..self },
            DialogKind::SaveAs => DialogsView { save_as: None, ..self },
            DialogKind::AddBookmark => DialogsView { add_bookmark: None, ..self },
            DialogKind::ClearHistory => DialogsView { clear_history: false, ..self },
            DialogKind::Info => DialogsView { info: None, ..self },
        }
    }
}

impl View for Dialogs {
    type V = DialogsView;

    open spec fn view(&self) -> DialogsView {
        DialogsView {
            url: self.url,
            query: self.query.deep_view(),
            search: self.search.deep_view(),
            save_as: self.save_as.deep_view(),
            add_bookmark: self.add_bookmark.deep_view(),
            clear_history: self.clear_history,
            info: self.info.deep_view(),
        }
    }
}

impl Dialogs {
    /// Every dialog closed.
    pub fn new() -> (r: Dialogs)
        ensures
            r@ == DialogsView::closed(),
    {
        Dialogs {
            url: false,
            query: None,
            search: None,
            save_as: None,
            add_bookmark: None,
            clear_history: false,
            info: None,
        }
    }

    /// Whether the dialog of the given kind is open.
    pub fn is_open(&self, kind: DialogKind) -> (r: bool)
        ensures
            r == self@.is_open(kind),
    {
        match kind {
            DialogKind::Url => self.url,
            DialogKind::Query => self.query.is_some(),
            DialogKind::Search => self.search.is_some(),
            DialogKind::SaveAs => self.save_as.is_some(),
            DialogKind::AddBookmark => self.add_bookmark.is_some(),
            DialogKind::ClearHistory => self.clear_history,
            DialogKind::Info => self.info.is_some(),
        }
    }

    /// Closes the dialog of the given kind. The others stay as they are.
    pub fn close(&mut self, kind: DialogKind)
        ensures
            final(self)@ == old(self)@.close(kind),
            !final(self)@.is_open(kind),
    {
        match kind {
            DialogKind::Url => {
                self.url = false;
            },
            DialogKind::Query => {
                self.query = None;
            },
            DialogKind::Search => {
                self.search = None;
            },
            DialogKind::SaveAs => {
                self.save_as = None;
            },
            DialogKind::AddBookmark => {
                self.add_bookmark = None;
            },
            DialogKind::ClearHistory => {
                self.clear_history = false;
            },
            DialogKind::Info => {
                self.info = None;
            },
        }
    }
}

} // verus!
