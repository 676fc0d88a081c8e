//! Requests to the backend that fetches, saves and keeps the history.

use crate::address::{Address, AddressView};
use crate::ncgopher::ContentType;
use vstd::prelude::*;

verus! {

/// A request to the backend. Requests leave in the order in which they were made.
#[derive(Debug, PartialEq, Eq)]
pub enum ControllerMessage {
    /// Keep a bookmark: address, title, tags separated by commas.
    AddBookmark(Address, String, String),
    /// Forget the history.
    ClearHistory,
    /// Fetch the resource and write it to the path.
    FetchBinaryUrl(Address, String),
    /// Fetch the resource as content of the given kind; the string is the
    /// query, empty where there is none.
    FetchUrl(Address, ContentType, String),
    /// Go back to the resource shown before.
    NavigateBack,
    /// Ask for the add-bookmark dialog for the current resource.
    RequestAddBookmarkDialog,
    /// Ask for the save-as dialog for the current resource.
    RequestSaveAsDialog,
    /// Save the current page under the name.
    SavePageAs(String),
}

/// What a `ControllerMessage` stands for.
#[verifier::ext_equal]
pub enum ControllerMessageView {
    AddBookmark(AddressView, Seq<char>, Seq<char>),
    ClearHistory,
    FetchBinaryUrl(AddressView, Seq<char>),
    FetchUrl(AddressView, ContentType, Seq<char>),
    NavigateBack,
    RequestAddBookmarkDialog,
    RequestSaveAsDialog,
    SavePageAs(Seq<char>),
}

impl View for ControllerMessage {
    type V = ControllerMessageView;

    open spec fn view(&self) -> ControllerMessageView {
        match self {
            ControllerMessage::AddBookmark(url, title, tags) => ControllerMessageView::AddBookmark(
                url@,
                title@,
                tags@,
            ),
            ControllerMessage::ClearHistory => ControllerMessageView::ClearHistory,
            ControllerMessage::FetchBinaryUrl(url, path) => ControllerMessageView::FetchBinaryUrl(
                url@,
                path@,
            ),
            ControllerMessage::FetchUrl(url, kind, query) => ControllerMessageView::FetchUrl(
                url@,
                *kind,
                query@,
            ),
            ControllerMessage::NavigateBack => ControllerMessageView::NavigateBack,
            ControllerMessage::RequestAddBookmarkDialog => ControllerMessageView::RequestAddBookmarkDialog,
            ControllerMessage::RequestSaveAsDialog => ControllerMessageView::RequestSaveAsDialog,
            ControllerMessage::SavePageAs(name) => ControllerMessageView::SavePageAs(name@),
        }
    }
}

impl DeepView for ControllerMessage {
    type V = ControllerMessageView;

    open spec fn deep_view(&self) -> ControllerMessageView {
        self@
    }
}

} // verus!
