//! The menu bar: a row of menus, each a list of items. Two of the menus
//! grow while the program runs. The history menu and the bookmark menu
//! begin with three fixed items; what follows them are shortcuts, newest first.
//! The history keeps at most ten shortcuts and drops the oldest to make room;
//! the bookmarks are not bounded. Nothing is looked up before a shortcut
//! is added: the same entry added twice gives two shortcuts.
//!
//! An item holds what choosing it does as a value, a `MenuAction`, which
//! the controller carries out.

use crate::bookmarks::{Bookmark, BookmarkView};
use crate::history::{HistoryEntry, HistoryEntryView};
use crate::text::{joined, same_text};
use vstd::prelude::*;

verus! {

/// The most shortcuts that the history menu holds.
pub const HISTORY_LEN: usize = 10;

/// The number of fixed items at the head of the history and bookmark menus.
pub const FIXED_ITEMS: usize = 3;

/// What choosing a menu item does.
#[derive(Debug, PartialEq, Eq)]
pub enum MenuAction {
    /// Opens the dialog that asks for a URL.
    ShowUrlDialog,
    /// Asks the backend for the save-as dialog.
    RequestSaveAs,
    /// Shows a notice with the text.
    Info(String),
    /// Ends the program.
    Quit,
    /// Asks whether the history is to be deleted.
    ConfirmClearHistory,
    /// Asks the backend for the add-bookmark dialog.
    RequestAddBookmark,
    /// Opens the search dialog for the server at the address written here.
    Search(String),
    /// Opens the address written here.
    OpenUrl(String),
}

/// What a `MenuAction` stands for.
#[verifier::ext_equal]
pub enum MenuActionView {
    ShowUrlDialog,
    RequestSaveAs,
    Info(Seq<char>),
    Quit,
    ConfirmClearHistory,
    RequestAddBookmark,
    Search(Seq<char>),
    OpenUrl(Seq<char>),
}

impl View for MenuAction {
    type V = MenuActionView;

    open spec fn view(&self) -> MenuActionView {
        match self {
            MenuAction::ShowUrlDialog => MenuActionView::ShowUrlDialog,
            MenuAction::RequestSaveAs => MenuActionView::RequestSaveAs,
            MenuAction::Info(text) => MenuActionView::Info(text@),
            MenuAction::Quit => MenuActionView::Quit,
            MenuAction::ConfirmClearHistory => MenuActionView::ConfirmClearHistory,
            MenuAction::RequestAddBookmark => MenuActionView::RequestAddBookmark,
            MenuAction::Search(url) => MenuActionView::Search(url@),
            MenuAction::OpenUrl(url) => MenuActionView::OpenUrl(url@),
        }
    }
}

impl DeepView for MenuAction {
    type V = MenuActionView;

    open spec fn deep_view(&self) -> MenuActionView {
        self@
    }
}

impl Clone for MenuAction {
    fn clone(&self) -> (r: Self)
        ensures
            r@ == self@,
    {
        match self {
            MenuAction::ShowUrlDialog => MenuAction::ShowUrlDialog,
            MenuAction::RequestSaveAs => MenuAction::RequestSaveAs,
            MenuAction::Info(text) => MenuAction::Info(text.clone()),
            MenuAction::Quit => MenuAction::Quit,
            MenuAction::ConfirmClearHistory => MenuAction::ConfirmClearHistory,
            MenuAction::RequestAddBookmark => MenuAction::RequestAddBookmark,
            MenuAction::Search(url) => MenuAction::Search(url.clone()),
            MenuAction::OpenUrl(url) => MenuAction::OpenUrl(url.clone()),
        }
    }
}

/// An item that can be chosen.
#[derive(Debug, PartialEq, Eq)]
pub struct MenuLeaf {
    pub label: String,
    pub action: MenuAction,
}

/// What a `MenuLeaf` stands for.
#[verifier::ext_equal]
pub struct MenuLeafView {
    pub label: Seq<char>,
    pub action: MenuActionView,
}

impl View for MenuLeaf {
    type V = MenuLeafView;

    open spec fn view(&self) -> MenuLeafView {
        MenuLeafView { label: self.label@, action: self.action@ }
    }
}

impl DeepView for MenuLeaf {
    type V = MenuLeafView;

    open spec fn deep_view(&self) -> MenuLeafView {
        self@
    }
}

impl MenuLeaf {
    /// A leaf with the given label and action.
    pub fn new(label: &str, action: MenuAction) -> (r: MenuLeaf)
        ensures
            r@ == (MenuLeafView { label: label@, action: action@ }),
    {
        MenuLeaf { label: label.to_owned(), action }
    }
}

/// An item of a menu.
#[derive(Debug, PartialEq, Eq)]
pub enum MenuItem {
    /// An item that can be chosen.
    Leaf(MenuLeaf),
    /// A line between groups of items.
    Delimiter,
    /// A menu inside the menu, with its label.
    Subtree(String, Vec<MenuLeaf>),
}

/// What a `MenuItem` stands for.
#[verifier::ext_equal]
pub enum MenuItemView {
    Leaf(MenuLeafView),
    Delimiter,
    Subtree(Seq<char>, Seq<MenuLeafView>),
}

impl View for MenuItem {
    type V = MenuItemView;

    open spec fn view(&self) -> MenuItemView {
        match self {
            MenuItem::Leaf(leaf) => MenuItemView::Leaf(leaf@),
            MenuItem::Delimiter => MenuItemView::Delimiter,
            MenuItem::Subtree(label, children) => MenuItemView::Subtree(label@, children.deep_view()),
        }
    }
}

impl DeepView for MenuItem {
    type V = MenuItemView;

    open spec fn deep_view(&self) -> MenuItemView {
        self@
    }
}

/// One menu of the menu bar.
#[derive(Debug, PartialEq, Eq)]
pub struct MenuTree {
    pub title: String,
    pub items: Vec<MenuItem>,
}

/// What a `MenuTree` stands for.
#[verifier::ext_equal]
pub struct MenuTreeView {
    pub title: Seq<char>,
    pub items: Seq<MenuItemView>,
}

impl View for MenuTree {
    type V = MenuTreeView;

    open spec fn view(&self) -> MenuTreeView {
        MenuTreeView { title: self.title@, items: self.items.deep_view() }
    }
}

impl DeepView for MenuTree {
    type V = MenuTreeView;

    open spec fn deep_view(&self) -> MenuTreeView {
        self@
    }
}

/// A leaf item.
pub open spec fn leaf(label: Seq<char>, action: MenuActionView) -> MenuItemView {
    MenuItemView::Leaf(MenuLeafView { label, action })
}

/// The menu "File".
pub open spec fn file_menu() -> MenuTreeView {
    MenuTreeView {
        title: "File"@,
        items: seq![
            leaf("Open URL..."@, MenuActionView::ShowUrlDialog),
            MenuItemView::Delimiter,
            leaf("Save page as..."@, MenuActionView::RequestSaveAs),
            leaf("Settings..."@, MenuActionView::Info("Settings not implemented"@)),
            MenuItemView::Delimiter,
            leaf("Quit"@, MenuActionView::Quit),
        ],
    }
}

/// The menu "History" without shortcuts.
pub open spec fn history_menu() -> MenuTreeView {
    MenuTreeView {
        title: "History"@,
        items: seq![
            leaf("Show all history..."@, MenuActionView::Info("Show history not implemented"@)),
            leaf("Clear history"@, MenuActionView::ConfirmClearHistory),
            MenuItemView::Delimiter,
        ],
    }
}

/// The menu "Bookmarks" without shortcuts.
pub open spec fn bookmarks_menu() -> MenuTreeView {
    MenuTreeView {
        title: "Bookmarks"@,
        items: seq![
            leaf("Edit..."@, MenuActionView::Info("Edit bookmarks not implemented"@)),
            leaf("Add bookmark"@, MenuActionView::RequestAddBookmark),
            MenuItemView::Delimiter,
        ],
    }
}

/// The menu "Search".
pub open spec fn search_menu() -> MenuTreeView {
    MenuTreeView {
        title: "Search"@,
        items: seq![
            leaf("Veronica/2..."@, MenuActionView::Search("gopher://gopher.floodgap.com:70/v2/vs"@)),
            leaf("Gopherpedia..."@, MenuActionView::Search("gopher://gopher.floodgap.com:70/v2/vs"@)),
            leaf(
                "Gopher Movie Database..."@,
                MenuActionView::Search("gopher://jan.bio:70/cgi-bin/gmdb.py"@),
            ),
        ],
    }
}

/// The text of the notice behind "About".
pub open spec fn about_text() -> Seq<char> {
    ";               ncgopher v"@ + "0.1.0"@
        + "\n;     A Gopher client for the modern internet\n; (c) 2019-2020 by Jan Schreiber <jan@mecinus.com>\n;               gopher://jan.bio"@
}

/// The menu "Help".
pub open spec fn help_menu() -> MenuTreeView {
    MenuTreeView {
        title: "Help"@,
        items: seq![
            MenuItemView::Subtree(
                "Help"@,
                seq![
                    MenuLeafView { label: "General"@, action: MenuActionView::Info("Help message!"@) },
                    MenuLeafView {
                        label: "Online"@,
                        action: MenuActionView::Info("Google it yourself!\nKids, these days..."@),
                    },
                ],
            ),
            leaf("About"@, MenuActionView::Info(about_text())),
        ],
    }
}

/// The five menus that the menu bar is set up with, in order.
pub open spec fn standard_menus() -> Seq<MenuTreeView> {
    seq![file_menu(), history_menu(), bookmarks_menu(), search_menu(), help_menu()]
}

/// The index of the first menu with the given title; the number of menus
/// where none has it.
pub open spec fn find_menu(trees: Seq<MenuTreeView>, title: Seq<char>) -> int
    decreases trees.len(),
{
    if trees.len() == 0 || trees[0].title == title {
        0
    } else {
        1 + find_menu(trees.drop_first(), title)
    }
}

/// The shortcut for a history entry: its title, and its address to open.
pub open spec fn history_leaf(entry: HistoryEntryView) -> MenuItemView {
    leaf(entry.title, MenuActionView::OpenUrl(entry.url.text))
}

/// The shortcut for a bookmark: its title, and its address to open.
pub open spec fn bookmark_leaf(bookmark: BookmarkView) -> MenuItemView {
    leaf(bookmark.title, MenuActionView::OpenUrl(bookmark.url.text))
}

/// `items` with one more item placed directly behind the fixed ones.
pub open spec fn with_shortcut(items: Seq<MenuItemView>, item: MenuItemView) -> Seq<MenuItemView> {
    items.insert(FIXED_ITEMS as int, item)
}

/// The items of the history menu after one more entry: the new shortcut
/// comes first, and the last one leaves if there are more than the bound.
pub open spec fn with_history(items: Seq<MenuItemView>, entry: HistoryEntryView) -> Seq<
    MenuItemView,
> {
    let grown = with_shortcut(items, history_leaf(entry));
    if grown.len() > FIXED_ITEMS + HISTORY_LEN {
        grown.drop_last()
    } else {
        grown
    }
}

/// The shortcuts of a menu: what follows its fixed items.
pub open spec fn shortcuts(items: Seq<MenuItemView>) -> Seq<MenuItemView> {
    items.skip(FIXED_ITEMS as int)
}

/// What holds of every menu of a well-formed menu bar: one called
/// "History" has its fixed items and at most ten shortcuts, one called "Bookmarks"
/// has its fixed items.
pub open spec fn menu_wf(tree: MenuTreeView) -> bool {
    &&& tree.title == "History"@ ==> FIXED_ITEMS <= tree.items.len() <= FIXED_ITEMS + HISTORY_LEN
    &&& tree.title == "Bookmarks"@ ==> FIXED_ITEMS <= tree.items.len()
}

/// Every menu is well-formed.
pub open spec fn menus_wf(trees: Seq<MenuTreeView>) -> bool {
    forall|i: int| 0 <= i < trees.len() ==> menu_wf(#[trigger] trees[i])
}

/// The menus after the history gained an entry. Without a menu called
/// "History" nothing changes.
pub open spec fn menus_with_history(trees: Seq<MenuTreeView>, entry: HistoryEntryView) -> Seq<
    MenuTreeView,
> {
    let i = find_menu(trees, "History"@);
    if 0 <= i < trees.len() {
        trees.update(
            i,
            MenuTreeView { title: trees[i].title, items: with_history(trees[i].items, entry) },
        )
    } else {
        trees
    }
}

/// The menus after the bookmarks gained one. Without a menu called
/// "Bookmarks" nothing changes.
pub open spec fn menus_with_bookmark(trees: Seq<MenuTreeView>, bookmark: BookmarkView) -> Seq<
    MenuTreeView,
> {
    let i = find_menu(trees, "Bookmarks"@);
    if 0 <= i < trees.len() {
        trees.update(
            i,
            MenuTreeView {
                title: trees[i].title,
                items: with_shortcut(trees[i].items, bookmark_leaf(bookmark)),
            },
        )
    } else {
        trees
    }
}

/// The menus after the history was cleared: the menu called "History"
/// keeps its fixed items only.
pub open spec fn menus_without_history(trees: Seq<MenuTreeView>) -> Seq<MenuTreeView> {
    let i = find_menu(trees, "History"@);
    if 0 <= i < trees.len() {
        trees.update(
            i,
            MenuTreeView { title: trees[i].title, items: trees[i].items.take(FIXED_ITEMS as int) },
        )
    } else {
        trees
    }
}

/// The action behind item `item` of menu `tree`, where that item is a leaf.
pub open spec fn action_at(trees: Seq<MenuTreeView>, tree: int, item: int) -> Option<
    MenuActionView,
> {
    if 0 <= tree < trees.len() && 0 <= item < trees[tree].items.len() {
        match trees[tree].items[item] {
            MenuItemView::Leaf(leaf) => Some(leaf.action),
            _ => None,
        }
    } else {
        None
    }
}

/// The action behind item `child` of the menu that is item `item` of menu `tree`.
pub open spec fn sub_action_at(trees: Seq<MenuTreeView>, tree: int, item: int, child: int) -> Option<
    MenuActionView,
> {
    if 0 <= tree < trees.len() && 0 <= item < trees[tree].items.len() {
        match trees[tree].items[item] {
            MenuItemView::Subtree(_, children) => if 0 <= child < children.len() {
                Some(children[child].action)
            } else {
                None
            },
            _ => None,
        }
    } else {
        None
    }
}

/// `find_menu` gives an index within bounds or the length; no menu before
/// it has the title, and the menu at it has.
pub proof fn lemma_find_menu(trees: Seq<MenuTreeView>, title: Seq<char>)
    ensures
        0 <= find_menu(trees, title) <= trees.len(),
        find_menu(trees, title) < trees.len() ==> trees[find_menu(trees, title)].title == title,
        forall|j: int| 0 <= j < find_menu(trees, title) ==> trees[j].title != title,
    decreases trees.len(),
{
    if trees.len() == 0 || trees[0].title == title {
    } else {
        let rest = trees.drop_first();
        lemma_find_menu(rest, title);
        assert forall|j: int| 0 <= j < find_menu(trees, title) implies trees[j].title != title by {
            if j > 0 {
                assert(trees[j] == rest[j - 1]);
            }
        }
    }
}

/// An index before which no menu has the title, and which has it or is the
/// length, is the one that `find_menu` gives.
pub proof fn lemma_find_menu_is(trees: Seq<MenuTreeView>, title: Seq<char>, i: int)
    requires
        0 <= i <= trees.len(),
        forall|j: int| 0 <= j < i ==> trees[j].title != title,
        i < trees.len() ==> trees[i].title == title,
    ensures
        find_menu(trees, title) == i,
    decreases trees.len(),
{
    if trees.len() == 0 || trees[0].title == title {
    } else {
        let rest = trees.drop_first();
        lemma_find_menu_is(rest, title, i - 1);
    }
}

/// A history menu that is full loses exactly its oldest shortcut when an
/// entry is added: the new shortcut comes first, the nine newest of the old
/// ones follow in their order, and the bound is kept.
pub proof fn lemma_history_evicts_oldest(items: Seq<MenuItemView>, entry: HistoryEntryView)
    requires
        items.len() == FIXED_ITEMS + HISTORY_LEN,
    ensures
        shortcuts(with_history(items, entry)).len() == HISTORY_LEN,
        shortcuts(with_history(items, entry)) == seq![history_leaf(entry)] + shortcuts(
            items,
        ).drop_last(),
        with_history(items, entry).take(FIXED_ITEMS as int) == items.take(FIXED_ITEMS as int),
{
}

/// A history menu that is not full keeps all its shortcuts when an entry
/// is added, behind the new one. The fixed items stay as they are, and
/// the bound is kept.
pub proof fn lemma_history_grows(items: Seq<MenuItemView>, entry: HistoryEntryView)
    requires
        FIXED_ITEMS <= items.len() < FIXED_ITEMS + HISTORY_LEN,
    ensures
        shortcuts(with_history(items, entry)) == seq![history_leaf(entry)] + shortcuts(items),
        shortcuts(with_history(items, entry)).len() <= HISTORY_LEN,
        with_history(items, entry).take(FIXED_ITEMS as int) == items.take(FIXED_ITEMS as int),
{
}

/// The items of the history menu after the entries of `entries` were
/// added one by one, in order.
pub open spec fn with_histories(items: Seq<MenuItemView>, entries: Seq<HistoryEntryView>) -> Seq<
    MenuItemView,
>
    decreases entries.len(),
{
    if entries.len() == 0 {
        items
    } else {
        with_history(with_histories(items, entries.drop_last()), entries.last())
    }
}

/// The shortcuts for the newest entries of `entries`, newest first, at
/// most ten of them.
pub open spec fn newest_shortcuts(entries: Seq<HistoryEntryView>) -> Seq<MenuItemView> {
    Seq::new(
        if entries.len() <= HISTORY_LEN {
            entries.len()
        } else {
            HISTORY_LEN as nat
        },
        |k: int| history_leaf(entries[entries.len() - 1 - k]),
    )
}

/// A history menu that starts without shortcuts holds, after any number
/// of entries, the shortcuts for the newest ten of them, newest first; its
/// fixed items are as they were. So the eleventh entry drives out the
/// first, the twelfth the second, and so on.
pub proof fn lemma_history_keeps_newest(items: Seq<MenuItemView>, entries: Seq<HistoryEntryView>)
    requires
        items.len() == FIXED_ITEMS,
    ensures
        FIXED_ITEMS <= with_histories(items, entries).len() <= FIXED_ITEMS + HISTORY_LEN,
        with_histories(items, entries).take(FIXED_ITEMS as int) == items,
        shortcuts(with_histories(items, entries)) == newest_shortcuts(entries),
    decreases entries.len(),
{
    if entries.len() == 0 {
    } else {
        let earlier = entries.drop_last();
        lemma_history_keeps_newest(items, earlier);
    }
}

/// Clearing the history leaves no shortcut, however many there were.
pub proof fn lemma_clear_history_leaves_none(trees: Seq<MenuTreeView>)
    requires
        menus_wf(trees),
    ensures
        menus_wf(menus_without_history(trees)),
        ({
            let i = find_menu(trees, "History"@);
            0 <= i < trees.len() ==> {
                &&& shortcuts(menus_without_history(trees)[i].items).len() == 0
                &&& menus_without_history(trees)[i].items == trees[i].items.take(FIXED_ITEMS as int)
                &&& find_menu(menus_without_history(trees), "History"@) == i
            }
        }),
{
    let i = find_menu(trees, "History"@);
    lemma_find_menu(trees, "History"@);
    if 0 <= i < trees.len() {
        let after = menus_without_history(trees);
        lemma_find_menu_is(after, "History"@, i);
    }
}

/// Well-formed menus are well-formed after the history gained an entry.
pub proof fn lemma_menus_with_history_wf(trees: Seq<MenuTreeView>, entry: HistoryEntryView)
    requires
        menus_wf(trees),
    ensures
        menus_wf(menus_with_history(trees, entry)),
{
    let after = menus_with_history(trees, entry);
}

/// Well-formed menus are well-formed after the bookmarks gained one.
pub proof fn lemma_menus_with_bookmark_wf(trees: Seq<MenuTreeView>, bookmark: BookmarkView)
    requires
        menus_wf(trees),
    ensures
        menus_wf(menus_with_bookmark(trees, bookmark)),
{
    let i = find_menu(trees, "Bookmarks"@);
    lemma_find_menu(trees, "Bookmarks"@);
    let after = menus_with_bookmark(trees, bookmark);
    assert forall|j: int| 0 <= j < after.len() implies menu_wf(#[trigger] after[j]) by {
        if j == i {
            lemma_titles_differ();
        }
    }
}

/// Well-formed menus are well-formed after the standard menus were added.
pub proof fn lemma_standard_menus_wf(trees: Seq<MenuTreeView>)
    requires
        menus_wf(trees),
    ensures
        menus_wf(trees + standard_menus()),
{
    lemma_titles_differ();
}

/// The titles "History", "Bookmarks" and "Help" are three different texts.
pub proof fn lemma_titles_differ()
    ensures
        "History"@ != "Bookmarks"@,
        "History"@ != "Help"@,
        "Bookmarks"@ != "Help"@,
{
    reveal_strlit("History");
    reveal_strlit("Bookmarks");
    reveal_strlit("Help");
    assert("Bookmarks"@.len() == 9);
    assert("Help"@.len() == 4);
}

/// The menu bar.
#[derive(Debug, PartialEq, Eq)]
pub struct Menubar {
    trees: Vec<MenuTree>,
}

impl View for Menubar {
    type V = Seq<MenuTreeView>;

    closed spec fn view(&self) -> Seq<MenuTreeView> {
        self.trees.deep_view()
    }
}

fn build_file_menu() -> (tree: MenuTree)
    ensures
        tree@ == file_menu(),
{
    let mut items: Vec<MenuItem> = Vec::new();
    items.push(MenuItem::Leaf(MenuLeaf::new("Open URL...", MenuAction::ShowUrlDialog)));
    items.push(MenuItem::Delimiter);
    items.push(MenuItem::Leaf(MenuLeaf::new("Save page as...", MenuAction::RequestSaveAs)));
    items.push(
        MenuItem::Leaf(
            MenuLeaf::new("Settings...", MenuAction::Info("Settings not implemented".to_owned())),
        ),
    );
    items.push(MenuItem::Delimiter);
    items.push(MenuItem::Leaf(MenuLeaf::new("Quit", MenuAction::Quit)));
    MenuTree { title: "File".to_owned(), items }
}

fn build_history_menu() -> (tree: MenuTree)
    ensures
        tree@ == history_menu(),
{
    let mut items: Vec<MenuItem> = Vec::new();
    items.push(
        MenuItem::Leaf(
            MenuLeaf::new(
                "Show all history...",
                MenuAction::Info("Show history not implemented".to_owned()),
            ),
        ),
    );
    items.push(MenuItem::Leaf(MenuLeaf::new("Clear history", MenuAction::ConfirmClearHistory)));
    items.push(MenuItem::Delimiter);
    MenuTree { title: "History".to_owned(), items }
}

fn build_bookmarks_menu() -> (tree: MenuTree)
    ensures
        tree@ == bookmarks_menu(),
{
    let mut items: Vec<MenuItem> = Vec::new();
    items.push(
        MenuItem::Leaf(
            MenuLeaf::new("Edit...", MenuAction::Info("Edit bookmarks not implemented".to_owned())),
        ),
    );
    items.push(MenuItem::Leaf(MenuLeaf::new("Add bookmark", MenuAction::RequestAddBookmark)));
    items.push(MenuItem::Delimiter);
    MenuTree { title: "Bookmarks".to_owned(), items }
}

fn build_search_menu() -> (tree: MenuTree)
    ensures
        tree@ == search_menu(),
{
    let mut items: Vec<MenuItem> = Vec::new();
    items.push(
        MenuItem::Leaf(
            MenuLeaf::new(
                "Veronica/2...",
                MenuAction::Search("gopher://gopher.floodgap.com:70/v2/vs".to_owned()),
            ),
        ),
    );
    items.push(
        MenuItem::Leaf(
            MenuLeaf::new(
                "Gopherpedia...",
                MenuAction::Search("gopher://gopher.floodgap.com:70/v2/vs".to_owned()),
            ),
        ),
    );
    items.push(
        MenuItem::Leaf(
            MenuLeaf::new(
                "Gopher Movie Database...",
                MenuAction::Search("gopher://jan.bio:70/cgi-bin/gmdb.py".to_owned()),
            ),
        ),
    );
    MenuTree { title: "Search".to_owned(), items }
}

fn build_help_menu() -> (tree: MenuTree)
    ensures
        tree@ == help_menu(),
{
    let mut children: Vec<MenuLeaf> = Vec::new();
    children.push(MenuLeaf::new("General", MenuAction::Info("Help message!".to_owned())));
    children.push(
        MenuLeaf::new(
            "Online",
            MenuAction::Info("Google it yourself!\nKids, these days...".to_owned()),
        ),
    );
    assert(children.deep_view() =~= seq![
        MenuLeafView { label: "General"@, action: MenuActionView::Info("Help message!"@) },
        MenuLeafView {
            label: "Online"@,
            action: MenuActionView::Info("Google it yourself!\nKids, these days..."@),
        },
    ]);
    let mut about = joined(";               ncgopher v", "0.1.0");
    about.append(
        "\n;     A Gopher client for the modern internet\n; (c) 2019-2020 by Jan Schreiber <jan@mecinus.com>\n;               gopher://jan.bio",
    );
    let mut items: Vec<MenuItem> = Vec::new();
    items.push(MenuItem::Subtree("Help".to_owned(), children));
    items.push(MenuItem::Leaf(MenuLeaf::new("About", MenuAction::Info(about))));
    MenuTree { title: "Help".to_owned(), items }
}

impl Clone for MenuLeaf {
    fn clone(&self) -> (r: Self)
        ensures
            r@ == self@,
    {
        MenuLeaf { label: self.label.clone(), action: self.action.clone() }
    }
}

/// A copy of the first `n` of `leaves`.
fn clone_leaves(leaves: &Vec<MenuLeaf>, n: usize) -> (r: Vec<MenuLeaf>)
    requires
        n <= leaves.len(),
    ensures
        r.deep_view() == leaves.deep_view().take(n as int),
{
    let mut r: Vec<MenuLeaf> = Vec::new();
    let mut i: usize = 0;
    while i < n
        invariant
            i <= n <= leaves.len(),
            r.deep_view() == leaves.deep_view().take(i as int),
        decreases n - i,
    {
        let ghost before = r.deep_view();
        let leaf = leaves[i].clone();
        r.push(leaf);
        assert(before.push(leaf@) =~= leaves.deep_view().take(i + 1));
        i += 1;
    }
    r
}

impl Clone for MenuItem {
    fn clone(&self) -> (r: Self)
        ensures
            r@ == self@,
    {
        match self {
            MenuItem::Leaf(leaf) => MenuItem::Leaf(leaf.clone()),
            MenuItem::Delimiter => MenuItem::Delimiter,
            MenuItem::Subtree(label, children) => {
                let copy = clone_leaves(children, children.len());
                MenuItem::Subtree(label.clone(), copy)
            },
        }
    }
}

/// A copy of the first `n` of `items`.
fn clone_items(items: &Vec<MenuItem>, n: usize) -> (r: Vec<MenuItem>)
    requires
        n <= items.len(),
    ensures
        r.deep_view() == items.deep_view().take(n as int),
        n == items.len() ==> r.deep_view() == items.deep_view(),
{
    let mut r: Vec<MenuItem> = Vec::new();
    let mut i: usize = 0;
    while i < n
        invariant
            i <= n <= items.len(),
            r.deep_view() == items.deep_view().take(i as int),
        decreases n - i,
    {
        let ghost before = r.deep_view();
        let item = items[i].clone();
        r.push(item);
        assert(before.push(item@) =~= items.deep_view().take(i + 1));
        i += 1;
    }
    r
}

impl Menubar {
    /// Every menu is well-formed, at all times.
    #[verifier::type_invariant]
    spec fn wf(&self) -> bool {
        menus_wf(self.trees.deep_view())
    }

    /// A menu bar without menus.
    pub fn new() -> (r: Menubar)
        ensures
            r@ == Seq::<MenuTreeView>::empty(),
    {
        let r = Menubar { trees: Vec::new() };
        r
    }

    /// The menus, in order. Every one of them is well-formed.
    pub fn trees(&self) -> (r: &Vec<MenuTree>)
        ensures
            r.deep_view() == self@,
            menus_wf(self@),
    {
        proof {
            use_type_invariant(self);
        }
        &self.trees
    }

    /// The index of the first menu with the given title.
    pub fn find_subtree(&self, title: &str) -> (r: Option<usize>)
        ensures
            match r {
                Some(i) => i < self@.len() && find_menu(self@, title@) == i && self@[i as int].title
                    == title@,
                None => find_menu(self@, title@) == self@.len(),
            },
    {
        let mut i: usize = 0;
        while i < self.trees.len()
            invariant
                i <= self.trees.len(),
                forall|j: int| 0 <= j < i ==> self@[j].title != title@,
            decreases self.trees.len() - i,
        {
            if same_text(self.trees[i].title.as_str(), title) {
                proof {
                    lemma_find_menu_is(self@, title@, i as int);
                }
                return Some(i);
            }
            i += 1;
        }
        proof {
            lemma_find_menu_is(self@, title@, i as int);
        }
        None
    }

    /// Appends the five standard menus.
    pub fn add_standard_menus(&mut self)
        ensures
            final(self)@ == old(self)@ + standard_menus(),
            menus_wf(final(self)@),
    {
        proof {
            use_type_invariant(&*self);
        }
        let mut trees: Vec<MenuTree> = Vec::new();
        core::mem::swap(&mut trees, &mut self.trees);
        trees.push(build_file_menu());
        trees.push(build_history_menu());
        trees.push(build_bookmarks_menu());
        trees.push(build_search_menu());
        trees.push(build_help_menu());
        proof {
            lemma_standard_menus_wf(old(self)@);
            assert(trees.deep_view() =~= old(self)@ + standard_menus());
        }
        self.trees = trees;
    }

    /// Puts `tree` in the place of menu `i`.
    fn replace_tree(&mut self, i: usize, tree: MenuTree)
        requires
            i < old(self)@.len(),
            menu_wf(tree@),
        ensures
            final(self)@ == old(self)@.update(i as int, tree@),
            menus_wf(final(self)@),
    {
        proof {
            use_type_invariant(&*self);
        }
        let mut trees: Vec<MenuTree> = Vec::new();
        core::mem::swap(&mut trees, &mut self.trees);
        let _ = trees.remove(i);
        trees.insert(i, tree);
        proof {
            assert forall|j: int| 0 <= j < trees.deep_view().len() implies menu_wf(
                #[trigger] trees.deep_view()[j],
            ) by {
                if j != i {
                    assert(menu_wf(old(self)@[j]));
                }
            }
        }
        self.trees = trees;
    }

    /// A copy of the items of menu `i` with `item` placed directly behind
    /// the fixed ones.
    fn items_with_shortcut(&self, i: usize, item: MenuItem) -> (items: Vec<MenuItem>)
        requires
            i < self@.len(),
            FIXED_ITEMS <= self@[i as int].items.len(),
        ensures
            items.deep_view() == with_shortcut(self@[i as int].items, item@),
    {
        let source = &self.trees[i].items;
        let mut items = clone_items(source, source.len());
        items.insert(FIXED_ITEMS, item);
        items
    }

    /// Puts a shortcut for `entry` at the head of the history, and drops
    /// the oldest shortcut if there are then more than ten. Without a menu
    /// called "History" nothing changes.
    pub fn insert_history(&mut self, entry: &HistoryEntry)
        ensures
            final(self)@ == menus_with_history(old(self)@, entry@),
            menus_wf(final(self)@),
    {
        proof {
            use_type_invariant(&*self);
        }
        match self.find_subtree("History") {
            Some(i) => {
                let item = MenuItem::Leaf(
                    MenuLeaf {
                        label: entry.title.clone(),
                        action: MenuAction::OpenUrl(entry.url.to_string()),
                    },
                );
                let mut items = self.items_with_shortcut(i, item);
                if items.len() > FIXED_ITEMS + HISTORY_LEN {
                    let ghost grown = items.deep_view();
                    items.pop();
                    assert(items.deep_view() =~= grown.drop_last());
                }
                let tree = MenuTree { title: self.trees[i].title.clone(), items };
                self.replace_tree(i, tree);
            },
            None => {},
        }
    }

    /// Puts a shortcut for `bookmark` at the head of the bookmarks. Without
    /// a menu called "Bookmarks" nothing changes.
    pub fn insert_bookmark(&mut self, bookmark: &Bookmark)
        ensures
            final(self)@ == menus_with_bookmark(old(self)@, bookmark@),
            menus_wf(final(self)@),
    {
        proof {
            use_type_invariant(&*self);
        }
        match self.find_subtree("Bookmarks") {
            Some(i) => {
                let item = MenuItem::Leaf(
                    MenuLeaf {
                        label: bookmark.title.clone(),
                        action: MenuAction::OpenUrl(bookmark.url.to_string()),
                    },
                );
                let items = self.items_with_shortcut(i, item);
                let tree = MenuTree { title: self.trees[i].title.clone(), items };
                proof {
                    lemma_titles_differ();
                }
                self.replace_tree(i, tree);
            },
            None => {},
        }
    }

    /// Removes every shortcut from the history. Without a menu called
    /// "History" nothing changes.
    pub fn clear_history(&mut self)
        ensures
            final(self)@ == menus_without_history(old(self)@),
            menus_wf(final(self)@),
            ({
                let i = find_menu(old(self)@, "History"@);
                0 <= i < old(self)@.len() ==> shortcuts(final(self)@[i].items).len() == 0
            }),
    {
        proof {
            use_type_invariant(&*self);
        }
        match self.find_subtree("History") {
            Some(i) => {
                let source = &self.trees[i].items;
                let items = clone_items(source, FIXED_ITEMS);
                let tree = MenuTree { title: self.trees[i].title.clone(), items };
                self.replace_tree(i, tree);
            },
            None => {},
        }
    }

    /// The action behind item `item` of menu `tree`, where that item is a leaf.
    pub fn action_at(&self, tree: usize, item: usize) -> (r: Option<MenuAction>)
        ensures
            r.deep_view() == action_at(self@, tree as int, item as int),
    {
        if tree < self.trees.len() && item < self.trees[tree].items.len() {
            match &self.trees[tree].items[item] {
                MenuItem::Leaf(leaf) => Some(leaf.action.clone()),
                _ => None,
            }
        } else {
            None
        }
    }

    /// The action behind item `child` of the menu that is item `item` of menu `tree`.
    pub fn sub_action_at(&self, tree: usize, item: usize, child: usize) -> (r: Option<MenuAction>)
        ensures
            r.deep_view() == sub_action_at(self@, tree as int, item as int, child as int),
    {
        if tree < self.trees.len() && item < self.trees[tree].items.len() {
            match &self.trees[tree].items[item] {
                MenuItem::Subtree(_, children) => {
                    if child < children.len() {
                        Some(children[child].action.clone())
                    } else {
                        None
                    }
                },
                _ => None,
            }
        } else {
            None
        }
    }
}

} // verus!
