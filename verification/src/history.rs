//! Entries of the navigation history.

use crate::address::{Address, AddressView};
use vstd::prelude::*;

verus! {

/// A visited resource: what it was called and where it is.
#[derive(Debug, PartialEq, Eq)]
pub struct HistoryEntry {
    pub title: String,
    pub url: Address,
}

/// What a `HistoryEntry` stands for.
#[verifier::ext_equal]
pub struct HistoryEntryView {
    pub title: Seq<char>,
    pub url: AddressView,
}

impl View for HistoryEntry {
    type V = HistoryEntryView;

    open spec fn view(&self) -> HistoryEntryView {
        HistoryEntryView { title: self.title@, url: self.url@ }
    }
}

impl DeepView for HistoryEntry {
    type V = HistoryEntryView;

    open spec fn deep_view(&self) -> HistoryEntryView {
        self@
    }
}

impl Clone for HistoryEntry {
    fn clone(&self) -> (r: Self)
        ensures
            r@ == self@,
    {
        HistoryEntry { title: self.title.clone(), url: self.url.clone() }
    }
}

impl HistoryEntry {
    /// An entry for `url` under `title`.
    pub fn new(title: String, url: Address) -> (r: HistoryEntry)
        ensures
            r@ == (HistoryEntryView { title: title@, url: url@ }),
    {
        HistoryEntry { title, url }
    }
}

} // verus!
