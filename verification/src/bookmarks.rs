//! Bookmarks.

use crate::address::{Address, AddressView};
use vstd::prelude::*;

verus! {

/// A resource that the user chose to keep: what it is called and where it is.
#[derive(Debug, PartialEq, Eq)]
pub struct Bookmark {
    pub title: String,
    pub url: Address,
}

/// What a `Bookmark` stands for.
#[verifier::ext_equal]
pub struct BookmarkView {
    pub title: Seq<char>,
    pub url: AddressView,
}

impl View for Bookmark {
    type V = BookmarkView;

    open spec fn view(&self) -> BookmarkView {
        BookmarkView { title: self.title@, url: self.url@ }
    }
}

impl DeepView for Bookmark {
    type V = BookmarkView;

    open spec fn deep_view(&self) -> BookmarkView {
        self@
    }
}

impl Clone for Bookmark {
    fn clone(&self) -> (r: Self)
        ensures
            r@ == self@,
    {
        Bookmark { title: self.title.clone(), url: self.url.clone() }
    }
}

impl Bookmark {
    /// A bookmark for `url` under `title`.
    pub fn new(title: String, url: Address) -> (r: Bookmark)
        ensures
            r@ == (BookmarkView { title: title@, url: url@ }),
    {
        Bookmark { title, url }
    }
}

} // verus!
