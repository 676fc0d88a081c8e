//! What the controller's state stands for, and what every event makes of it.
//!
//! Each function here takes the state before an event and gives the state
//! after it. The controller's own functions are held to these.

use crate::address::{has_scheme, lemma_scheme_len_is, parsed_url, AddressView};
use crate::bookmarks::BookmarkView;
use crate::controller::ControllerMessageView;
use crate::dialogs::{DialogKind, DialogsView};
use crate::gophermap::{
    entry_lines, entry_of_line, item_of, listing_of, GopherMapEntryView, ItemType, ListingItemView,
};
use crate::history::HistoryEntryView;
use crate::layout::{LayoutView, Pane};
use crate::menu::{
    action_at, lemma_menus_with_bookmark_wf, lemma_standard_menus_wf, menus_wf,
    menus_with_bookmark, menus_with_history, menus_without_history, standard_menus,
    sub_action_at, MenuActionView, MenuTreeView,
};
use crate::ncgopher::{ContentType, Key, KeyAction, UiMessageView};
use crate::text::{decimal, lines};
use vstd::prelude::*;

verus! {

/// The name that a download is written under: the last segment of the
/// address's path, or `download.bin` for an address without segments.
pub open spec fn filename_of(url: AddressView) -> Seq<char> {
    match url.last_segment() {
        Some(segment) => segment,
        None => "download.bin"@,
    }
}

/// The base of the name that the save-as dialog proposes: the last segment
/// of the address's path, or `download` where there is no segment or an empty one.
pub open spec fn save_as_base(url: AddressView) -> Seq<char> {
    match url.last_segment() {
        Some(segment) => if segment.len() > 0 {
            segment
        } else {
            "download"@
        },
        None => "download"@,
    }
}

/// The name that the save-as dialog proposes: the base as it is where it
/// holds a full stop, and so has an extension; else the base with `.txt`
/// behind it.
pub open spec fn save_as_name(url: AddressView) -> Seq<char> {
    let base = save_as_base(url);
    if base.contains('.') {
        base
    } else {
        base + ".txt"@
    }
}

/// The path that a download into `dir` is written to.
pub open spec fn download_path(dir: Seq<char>, url: AddressView) -> Seq<char> {
    dir + "/"@ + filename_of(url)
}

/// What the user typed, with the scheme `gopher://` before it unless it
/// begins with a scheme of its own.
pub open spec fn normalized_url(input: Seq<char>) -> Seq<char> {
    if has_scheme(input) {
        input
    } else {
        "gopher://"@ + input
    }
}

/// The status line after a download.
pub open spec fn downloaded_text(filename: Seq<char>, bytes: usize) -> Seq<char> {
    "File downloaded: "@ + filename + " ("@ + decimal(bytes as nat) + " bytes)"@
}

/// The status line after a page was saved.
pub open spec fn saved_text(filename: Seq<char>) -> Seq<char> {
    "Page saved as '"@ + filename + "'."@
}

/// The status line for an address that the parser refused.
pub open spec fn invalid_url_text(error: Seq<char>) -> Seq<char> {
    "Invalid URL: "@ + error
}

/// The rows of the text pane for a payload: its lines, each behind two spaces.
pub open spec fn text_rows(content: Seq<char>) -> Seq<Seq<char>> {
    lines(content).map_values(|line: Seq<char>| "  "@ + line)
}

/// What choosing an entry asks for: a directory is opened as a listing, a
/// text file as text, a binary, an image or a legacy-encoded file as a
/// download, and a search server asks for the query first. Every other
/// kind of entry, and an entry without an address, asks for nothing.
pub open spec fn selection_message(entry: GopherMapEntryView) -> Option<UiMessageView> {
    match entry.url {
        Some(url) => match entry.item_type {
            ItemType::Dir => Some(UiMessageView::OpenUrl(url, ContentType::Gophermap)),
            ItemType::File => Some(UiMessageView::OpenUrl(url, ContentType::Text)),
            ItemType::Binary | ItemType::BinHex | ItemType::Dos | ItemType::Image | ItemType::Gif => Some(
                UiMessageView::OpenUrl(url, ContentType::Binary),
            ),
            ItemType::IndexServer => Some(UiMessageView::OpenQueryDialog(url)),
            _ => None,
        },
        None => None,
    }
}

/// What a key asks of the front end, beyond what it does to the state: `q`
/// ends the program, Esc gives the menu bar the focus, and `~` shows or
/// hides the debug console. Every other key asks for nothing.
pub open spec fn key_action(key: Key) -> KeyAction {
    match key {
        Key::Char(c) => if c == 'q' {
            KeyAction::Quit
        } else if c == '~' {
            KeyAction::ToggleDebugConsole
        } else {
            KeyAction::Nothing
        },
        Key::Esc => KeyAction::SelectMenubar,
    }
}

/// What the controller's state stands for.
#[verifier::ext_equal]
pub struct NcGopherView {
    /// Whether the render loop is still wanted. Once false it stays false.
    pub running: bool,
    /// The status line.
    pub message: Seq<char>,
    /// Whether a redraw was asked for and not yet taken.
    pub refresh: bool,
    /// Which pane is shown, and the titles.
    pub layout: LayoutView,
    /// The rows of the listing pane.
    pub content: Seq<ListingItemView>,
    /// The rows of the text pane.
    pub text: Seq<Seq<char>>,
    /// The menus.
    pub menubar: Seq<MenuTreeView>,
    /// The dialogs.
    pub dialogs: DialogsView,
    /// The events that wait for the next step, oldest first.
    pub ui_tx: Seq<UiMessageView>,
    /// The requests that wait to be handed to the backend, oldest first.
    pub controller_tx: Seq<ControllerMessageView>,
    /// Where downloads go, if that is known.
    pub download_dir: Option<Seq<char>>,
}

impl NcGopherView {
    /// The state at the start: running, nothing shown, nothing queued.
    pub open spec fn initial() -> NcGopherView {
        NcGopherView {
            running: true,
            message: Seq::empty(),
            refresh: false,
            layout: LayoutView::initial(),
            content: Seq::empty(),
            text: Seq::empty(),
            menubar: Seq::empty(),
            dialogs: DialogsView::closed(),
            ui_tx: Seq::empty(),
            controller_tx: Seq::empty(),
            download_dir: None,
        }
    }

    /// One more event waits.
    pub open spec fn send_ui(self, message: UiMessageView) -> NcGopherView {
        NcGopherView { ui_tx: self.ui_tx.push(message), ..self }
    }

    /// One more request waits.
    pub open spec fn send_controller(self, message: ControllerMessageView) -> NcGopherView {
        NcGopherView { controller_tx: self.controller_tx.push(message), ..self }
    }

    /// A redraw is asked for.
    pub open spec fn trigger(self) -> NcGopherView {
        NcGopherView { refresh: true, ..self }
    }

    /// The status line shows `message`, and a redraw is asked for.
    pub open spec fn set_message(self, message: Seq<char>) -> NcGopherView {
        NcGopherView { message, refresh: true, ..self }
    }

    /// The render loop is no longer wanted.
    pub open spec fn quit(self) -> NcGopherView {
        NcGopherView { running: false, ..self }
    }

    /// Where downloads go is `dir`.
    pub open spec fn set_download_dir(self, dir: Option<Seq<char>>) -> NcGopherView {
        NcGopherView { download_dir: dir, ..self }
    }

    /// The menu bar gains the standard menus.
    pub open spec fn create_menubar(self) -> NcGopherView {
        NcGopherView { menubar: self.menubar + standard_menus(), ..self }
    }

    /// The interface is set up: the standard menus are there, and the
    /// listing pane is shown under its first title.
    pub open spec fn setup_ui(self) -> NcGopherView {
        NcGopherView { layout: LayoutView::initial(), ..self.create_menubar() }
    }

    /// A notice with `text` is shown.
    pub open spec fn show_info(self, text: Seq<char>) -> NcGopherView {
        NcGopherView { dialogs: DialogsView { info: Some(text), ..self.dialogs }, ..self }
    }

    /// The dialog of the given kind is closed.
    pub open spec fn close_dialog(self, kind: DialogKind) -> NcGopherView {
        NcGopherView { dialogs: self.dialogs.close(kind), ..self }
    }

    /// A download was written.
    pub open spec fn binary_written(self, filename: Seq<char>, bytes: usize) -> NcGopherView {
        self.set_message(downloaded_text(filename, bytes))
    }

    /// The address is fetched as content of the given kind: the status
    /// line says so, the listing pane is shown, and the request waits.
    pub open spec fn open_gopher_address(self, url: AddressView, kind: ContentType) -> NcGopherView {
        let loading = self.set_message("Loading ..."@);
        (NcGopherView { layout: loading.layout.set_view(Pane::Content), ..loading }).send_controller(
            ControllerMessageView::FetchUrl(url, kind, Seq::empty()),
        )
    }

    /// What the user typed, given the scheme `gopher://` where it has none,
    /// is opened as a listing if the parser accepts it; if not, the status
    /// line says why.
    pub open spec fn open_gopher_url_string(self, input: Seq<char>) -> NcGopherView {
        match parsed_url(normalized_url(input)) {
            Ok(url) => self.open_gopher_address(url, ContentType::Gophermap),
            Err(error) => self.set_message(invalid_url_text(error)),
        }
    }

    /// The address is opened as what the user might have typed.
    pub open spec fn open_gopher_url(self, url: AddressView) -> NcGopherView {
        self.open_gopher_url_string(url.text)
    }

    /// The query is sent to the search server.
    pub open spec fn query(self, url: AddressView, query: Seq<char>) -> NcGopherView {
        self.set_message("Loading ..."@).send_controller(
            ControllerMessageView::FetchUrl(url, ContentType::Gophermap, query),
        )
    }

    /// The resource is fetched into the directory.
    pub open spec fn fetch_binary_file(self, url: AddressView, dir: Seq<char>) -> NcGopherView {
        self.send_controller(ControllerMessageView::FetchBinaryUrl(url, download_path(dir, url)))
    }

    /// The address is opened as content of the given kind. A download
    /// needs the directory; without it the status line says so and nothing is
    /// fetched.
    pub open spec fn open_url(self, url: AddressView, kind: ContentType) -> NcGopherView {
        if kind == ContentType::Binary {
            match self.download_dir {
                Some(dir) => self.fetch_binary_file(url, dir),
                None => self.set_message("Could not find download dir"@),
            }
        } else {
            self.open_gopher_address(url, kind)
        }
    }

    /// The listing pane holds what the payload is classified as, and is
    /// called by the payload's title. What it held before is gone; the
    /// text pane keeps what it holds.
    pub open spec fn show_gophermap(self, content: Seq<char>) -> NcGopherView {
        let listing = listing_of(content);
        NcGopherView {
            content: listing.items,
            layout: self.layout.set_title(Pane::Content, listing.title),
            ..self
        }
    }

    /// The text pane holds the payload's lines and is shown. The listing
    /// pane keeps what it holds.
    pub open spec fn show_text_file(self, content: Seq<char>) -> NcGopherView {
        NcGopherView { text: text_rows(content), layout: self.layout.set_view(Pane::Text), ..self }
    }

    /// Content has arrived: it is shown by its kind (a binary not at all),
    /// and the status line names its address.
    pub open spec fn show_content(
        self,
        url: AddressView,
        content: Seq<char>,
        kind: ContentType,
    ) -> NcGopherView {
        let shown = match kind {
            ContentType::Gophermap => self.show_gophermap(content),
            ContentType::Text => self.show_text_file(content),
            ContentType::Binary => self,
        };
        shown.set_message(url.text)
    }

    /// The URL dialog is open.
    pub open spec fn show_url_dialog(self) -> NcGopherView {
        (NcGopherView { dialogs: DialogsView { url: true, ..self.dialogs }, ..self }).trigger()
    }

    /// The query dialog is open for the address.
    pub open spec fn open_query_dialog(self, url: AddressView) -> NcGopherView {
        (NcGopherView { dialogs: DialogsView { query: Some(url), ..self.dialogs }, ..self }).trigger()
    }

    /// The search dialog is open for the address.
    pub open spec fn show_search_dialog(self, url: AddressView) -> NcGopherView {
        (NcGopherView { dialogs: DialogsView { search: Some(url), ..self.dialogs }, ..self }).trigger()
    }

    /// The save-as dialog is open with the name proposed for the address.
    pub open spec fn show_save_as_dialog(self, url: AddressView) -> NcGopherView {
        (NcGopherView {
            dialogs: DialogsView { save_as: Some(save_as_name(url)), ..self.dialogs },
            ..self
        }).trigger()
    }

    /// The add-bookmark dialog is open for the address.
    pub open spec fn show_add_bookmark_dialog(self, url: AddressView) -> NcGopherView {
        (NcGopherView {
            dialogs: DialogsView { add_bookmark: Some(url), ..self.dialogs },
            ..self
        }).trigger()
    }

    /// The bookmark menu has one more shortcut.
    pub open spec fn add_to_bookmark_menu(self, bookmark: BookmarkView) -> NcGopherView {
        NcGopherView { menubar: menus_with_bookmark(self.menubar, bookmark), ..self }
    }

    /// The history menu has one more shortcut, and at most ten.
    pub open spec fn add_to_history_menu(self, entry: HistoryEntryView) -> NcGopherView {
        NcGopherView { menubar: menus_with_history(self.menubar, entry), ..self }
    }

    /// The history menu has no shortcuts.
    pub open spec fn clear_history_menu(self) -> NcGopherView {
        NcGopherView { menubar: menus_without_history(self.menubar), ..self }
    }

    /// The state after one event.
    pub open spec fn handle(self, message: UiMessageView) -> NcGopherView {
        match message {
            UiMessageView::AddToBookmarkMenu(bookmark) => self.add_to_bookmark_menu(bookmark),
            UiMessageView::AddToHistoryMenu(entry) => self.add_to_history_menu(entry),
            UiMessageView::BinaryWritten(filename, bytes) => self.binary_written(filename, bytes),
            UiMessageView::ClearHistoryMenu => self.clear_history_menu(),
            UiMessageView::OpenQueryDialog(url) => self.open_query_dialog(url),
            UiMessageView::OpenQueryUrl(url, query) => self.query(url, query),
            UiMessageView::OpenUrl(url, kind) => self.open_url(url, kind),
            UiMessageView::OpenURL(input) => self.open_gopher_url_string(input),
            UiMessageView::PageSaved(_, _, filename) => self.set_message(saved_text(filename)),
            UiMessageView::ShowAddBookmarkDialog(url) => self.show_add_bookmark_dialog(url),
            UiMessageView::ShowContent(url, content, kind) => self.show_content(url, content, kind),
            UiMessageView::ShowMessage(text) => self.set_message(text),
            UiMessageView::ShowURLDialog => self.show_url_dialog(),
            UiMessageView::ShowSaveAsDialog(url) => self.show_save_as_dialog(url),
            UiMessageView::ShowSearchDialog(url) => self.show_search_dialog(url),
        }
    }

    /// The state after the events of `messages`, applied in order.
    pub open spec fn drain(self, messages: Seq<UiMessageView>) -> NcGopherView
        decreases messages.len(),
    {
        if messages.len() == 0 {
            self
        } else {
            self.handle(messages[0]).drain(messages.drop_first())
        }
    }

    /// The state after one step. A controller that no longer runs stays
    /// as it is. One that runs applies every waiting event, oldest
    /// first; no event waits after that.
    pub open spec fn step(self) -> NcGopherView {
        if self.running {
            (NcGopherView { ui_tx: Seq::empty(), ..self }).drain(self.ui_tx)
        } else {
            self
        }
    }

    /// The state after a key. `q` ends the render loop, `g` asks for the
    /// URL dialog, `b` asks the backend to go back, `s` asks it for the save-as
    /// dialog. No other key changes the state.
    pub open spec fn on_key(self, key: Key) -> NcGopherView {
        match key {
            Key::Char(c) => if c == 'q' {
                self.quit()
            } else if c == 'g' {
                self.send_ui(UiMessageView::ShowURLDialog)
            } else if c == 'b' {
                self.send_controller(ControllerMessageView::NavigateBack)
            } else if c == 's' {
                self.send_controller(ControllerMessageView::RequestSaveAsDialog)
            } else {
                self
            },
            Key::Esc => self,
        }
    }

    /// The state after the action of a menu item.
    pub open spec fn perform(self, action: MenuActionView) -> NcGopherView {
        match action {
            MenuActionView::ShowUrlDialog => self.send_ui(UiMessageView::ShowURLDialog),
            MenuActionView::RequestSaveAs => self.send_controller(
                ControllerMessageView::RequestSaveAsDialog,
            ),
            MenuActionView::Info(text) => self.show_info(text),
            MenuActionView::Quit => self.quit(),
            MenuActionView::ConfirmClearHistory => NcGopherView {
                dialogs: DialogsView { clear_history: true, ..self.dialogs },
                ..self
            },
            MenuActionView::RequestAddBookmark => self.send_controller(
                ControllerMessageView::RequestAddBookmarkDialog,
            ),
            MenuActionView::Search(text) => match parsed_url(text) {
                Ok(url) => self.send_ui(UiMessageView::ShowSearchDialog(url)),
                Err(error) => self.set_message(invalid_url_text(error)),
            },
            MenuActionView::OpenUrl(text) => self.send_ui(UiMessageView::OpenURL(text)),
        }
    }

    /// The state after item `item` of menu `tree` was chosen. An item
    /// that is no leaf, and one that is not there, changes nothing.
    pub open spec fn select_menu_item(self, tree: int, item: int) -> NcGopherView {
        match action_at(self.menubar, tree, item) {
            Some(action) => self.perform(action),
            None => self,
        }
    }

    /// The state after item `child` of the menu that is item `item` of menu
    /// `tree` was chosen.
    pub open spec fn select_submenu_item(self, tree: int, item: int, child: int) -> NcGopherView {
        match sub_action_at(self.menubar, tree, item, child) {
            Some(action) => self.perform(action),
            None => self,
        }
    }

    /// The state after row `index` of the listing was chosen.
    pub open spec fn select_entry(self, index: int) -> NcGopherView {
        if 0 <= index < self.content.len() {
            match selection_message(self.content[index].entry) {
                Some(message) => self.send_ui(message),
                None => self,
            }
        } else {
            self
        }
    }

    /// The state after the URL dialog was submitted with `name`: the
    /// dialog is closed, and the text waits to be opened. Without the
    /// dialog nothing changes.
    pub open spec fn open_url_action(self, name: Seq<char>) -> NcGopherView {
        if self.dialogs.url {
            self.close_dialog(DialogKind::Url).send_ui(UiMessageView::OpenURL(name))
        } else {
            self
        }
    }

    /// The state after the query dialog was submitted with `text`: the
    /// dialog is closed, and a text that is not empty waits to be sent to the
    /// server that the dialog was opened for. Without the dialog nothing
    /// changes.
    pub open spec fn query_action(self, text: Seq<char>) -> NcGopherView {
        match self.dialogs.query {
            Some(url) => {
                let closed = self.close_dialog(DialogKind::Query);
                if text.len() > 0 {
                    closed.send_ui(UiMessageView::OpenQueryUrl(url, text))
                } else {
                    closed
                }
            },
            None => self,
        }
    }

    /// The state after the search dialog was submitted with `text`: the
    /// dialog is closed, and a text that is not empty waits to be sent to the
    /// server that the dialog was opened for; for an empty one a notice is
    /// shown. Without the dialog nothing changes.
    pub open spec fn search_action(self, text: Seq<char>) -> NcGopherView {
        match self.dialogs.search {
            Some(url) => {
                let closed = self.close_dialog(DialogKind::Search);
                if text.len() > 0 {
                    closed.send_ui(UiMessageView::OpenQueryUrl(url, text))
                } else {
                    closed.show_info("No search parameter!"@)
                }
            },
            None => self,
        }
    }

    /// The state after the save-as dialog was submitted with `name`: the
    /// dialog is closed, and the backend is asked to save under a name that
    /// is not empty; for an empty one a notice is shown. Without the
    /// dialog nothing changes.
    pub open spec fn save_as_action(self, name: Seq<char>) -> NcGopherView {
        if self.dialogs.save_as is Some {
            let closed = self.close_dialog(DialogKind::SaveAs);
            if name.len() > 0 {
                closed.send_controller(ControllerMessageView::SavePageAs(name))
            } else {
                closed.show_info("No filename given!"@)
            }
        } else {
            self
        }
    }

    /// The state after the add-bookmark dialog was submitted: the dialog is
    /// closed, and the backend is asked to keep the bookmark for the
    /// address that the dialog was opened for. Without the dialog nothing
    /// changes.
    pub open spec fn add_bookmark_action(self, title: Seq<char>, tags: Seq<char>) -> NcGopherView {
        match self.dialogs.add_bookmark {
            Some(url) => self.close_dialog(DialogKind::AddBookmark).send_controller(
                ControllerMessageView::AddBookmark(url, title, tags),
            ),
            None => self,
        }
    }

    /// The state after the user confirmed that the history is to be
    /// deleted: the question is closed, and the backend is asked to forget
    /// the history. Without the question nothing changes.
    pub open spec fn clear_history_action(self) -> NcGopherView {
        if self.dialogs.clear_history {
            self.close_dialog(DialogKind::ClearHistory).send_controller(
                ControllerMessageView::ClearHistory,
            )
        } else {
            self
        }
    }
}

/// No event queues an event or ends the render loop: whether the
/// controller runs, and what waits, is the same after an event as before.
pub proof fn lemma_handle_keeps_queue(state: NcGopherView, message: UiMessageView)
    ensures
        state.handle(message).ui_tx == state.ui_tx,
        state.handle(message).running == state.running,
{
}

/// What holds of one event holds of any number of them.
pub proof fn lemma_drain_keeps_queue(state: NcGopherView, messages: Seq<UiMessageView>)
    ensures
        state.drain(messages).ui_tx == state.ui_tx,
        state.drain(messages).running == state.running,
    decreases messages.len(),
{
    if messages.len() > 0 {
        lemma_drain_keeps_queue(state.handle(messages[0]), messages.drop_first());
    }
}

/// The text that is handed to the parser always begins with a scheme:
/// what the user typed if that begins with one, and otherwise `gopher://`
/// followed by what the user typed.
pub proof fn lemma_normalized_url(input: Seq<char>)
    ensures
        has_scheme(normalized_url(input)),
        has_scheme(input) ==> normalized_url(input) == input,
        !has_scheme(input) ==> normalized_url(input) == "gopher://"@ + input,
{
    if !has_scheme(input) {
        reveal_strlit("gopher://");
        reveal_strlit("://");
        let s = "gopher://"@ + input;
        assert(s[0] == 'g' && s[1] == 'o' && s[2] == 'p' && s[3] == 'h' && s[4] == 'e' && s[5] == 'r'
            && s[6] == ':' && s[7] == '/' && s[8] == '/');
        lemma_scheme_len_is(s, 6);
        assert(s.skip(6).take(3) =~= "://"@);
    }
}

/// Submitting the URL dialog closes it, whatever was typed. At the next
/// step, once the events that waited before it are applied, the text goes to
/// the parser, with `gopher://` before it where it has no scheme. If the
/// parser accepts it, the
/// address is fetched as a listing. If not, nothing is fetched and the
/// status line holds a text that is not empty: the parser's words behind
/// `Invalid URL: `.
pub proof fn lemma_submit_url(state: NcGopherView, input: Seq<char>)
    requires
        state.dialogs.url,
        state.running,
    ensures
        ({
            let submitted = state.open_url_action(input);
            let earlier = (NcGopherView { ui_tx: Seq::empty(), ..submitted }).drain(state.ui_tx);
            let after = submitted.step();
            &&& !submitted.dialogs.url
            &&& after == earlier.open_gopher_url_string(input)
            &&& after.ui_tx.len() == 0
            &&& match parsed_url(normalized_url(input)) {
                Ok(url) => {
                    &&& after.controller_tx == earlier.controller_tx.push(
                        ControllerMessageView::FetchUrl(url, ContentType::Gophermap, Seq::empty()),
                    )
                    &&& after.message == "Loading ..."@
                    &&& after.layout.active == Pane::Content
                },
                Err(error) => {
                    &&& after.controller_tx == earlier.controller_tx
                    &&& after.message == invalid_url_text(error)
                    &&& after.message.len() > 0
                },
            }
        }),
{
    let submitted = state.open_url_action(input);
    let emptied = NcGopherView { ui_tx: Seq::empty(), ..submitted };
    lemma_drain_in_order(emptied, state.ui_tx, UiMessageView::OpenURL(input));
    lemma_drain_keeps_queue(emptied, submitted.ui_tx);
    reveal_strlit("Invalid URL: ");
}

/// The name that the save-as dialog proposes is made from the last segment
/// of the address's path: the segment itself where it has an extension, the
/// segment with `.txt` behind it where it has none. An address without
/// segments, and one whose last segment is empty, gives `download.txt`. So
/// the name always has an extension.
pub proof fn lemma_save_as_name(url: AddressView)
    ensures
        save_as_name(url).contains('.'),
        match url.last_segment() {
            Some(segment) => if segment.len() == 0 {
                save_as_name(url) == "download"@ + ".txt"@
            } else if segment.contains('.') {
                save_as_name(url) == segment
            } else {
                save_as_name(url) == segment + ".txt"@
            },
            None => save_as_name(url) == "download"@ + ".txt"@,
        },
{
    reveal_strlit("download");
    reveal_strlit(".txt");
    let plain = "download"@;
    assert(!plain.contains('.')) by {
        assert forall|i: int| 0 <= i < plain.len() implies plain[i] != '.' by {
            assert(plain[0] == 'd' && plain[1] == 'o' && plain[2] == 'w' && plain[3] == 'n'
                && plain[4] == 'l' && plain[5] == 'o' && plain[6] == 'a' && plain[7] == 'd');
        }
    }
    let base = save_as_base(url);
    if !base.contains('.') {
        let name = base + ".txt"@;
        assert(name[base.len() as int] == '.');
    }
}

/// A listing followed by a status text, at the end of what waits, handled in
/// one step: the listing pane holds what the payload is classified as, the
/// status line holds the text that came last, and no event waits.
pub proof fn lemma_content_then_status(
    state: NcGopherView,
    earlier: Seq<UiMessageView>,
    url: AddressView,
    payload: Seq<char>,
    text: Seq<char>,
)
    requires
        state.running,
        state.ui_tx == earlier.push(
            UiMessageView::ShowContent(url, payload, ContentType::Gophermap),
        ).push(UiMessageView::ShowMessage(text)),
    ensures
        state.step().message == text,
        state.step().content == listing_of(payload).items,
        state.step().layout.content_title == listing_of(payload).title,
        state.step().ui_tx.len() == 0,
        state.step().running,
{
    let emptied = NcGopherView { ui_tx: Seq::empty(), ..state };
    let content = UiMessageView::ShowContent(url, payload, ContentType::Gophermap);
    lemma_drain_in_order(emptied, earlier.push(content), UiMessageView::ShowMessage(text));
    lemma_drain_in_order(emptied, earlier, content);
    lemma_drain_keeps_queue(emptied, state.ui_tx);
}

/// The history menu never holds more than its bound: a state whose menus
/// are well-formed has well-formed menus after every event, after every
/// step, and after the standard menus were added.
pub proof fn lemma_menus_stay_well_formed(state: NcGopherView, message: UiMessageView)
    requires
        menus_wf(state.menubar),
    ensures
        menus_wf(state.handle(message).menubar),
        menus_wf(state.step().menubar),
        menus_wf(state.create_menubar().menubar),
        menus_wf(state.setup_ui().menubar),
{
    if let UiMessageView::AddToBookmarkMenu(bookmark) = message {
        lemma_menus_with_bookmark_wf(state.menubar, bookmark);
    }
    lemma_drain_keeps_menus_wf(NcGopherView { ui_tx: Seq::empty(), ..state }, state.ui_tx);
    lemma_standard_menus_wf(state.menubar);
}

/// What holds of one event holds of any number of them.
proof fn lemma_drain_keeps_menus_wf(state: NcGopherView, messages: Seq<UiMessageView>)
    requires
        menus_wf(state.menubar),
    ensures
        menus_wf(state.drain(messages).menubar),
    decreases messages.len(),
{
    if messages.len() > 0 {
        if let UiMessageView::AddToBookmarkMenu(bookmark) = messages[0] {
            lemma_menus_with_bookmark_wf(state.menubar, bookmark);
        }
        lemma_drain_keeps_menus_wf(state.handle(messages[0]), messages.drop_first());
    }
}

/// Each pane keeps what it holds until content of its own kind arrives:
/// only a listing changes the rows and the title of the listing pane, and
/// only a text file changes the rows of the text pane.
pub proof fn lemma_panes_keep_content(state: NcGopherView, message: UiMessageView)
    ensures
        !(message matches UiMessageView::ShowContent(_, _, ContentType::Gophermap)) ==> {
            &&& state.handle(message).content == state.content
            &&& state.handle(message).layout.content_title == state.layout.content_title
        },
        !(message matches UiMessageView::ShowContent(_, _, ContentType::Text)) ==> {
            &&& state.handle(message).text == state.text
            &&& state.handle(message).layout.text_title == state.layout.text_title
        },
{
}

/// Every row of the listing pane is made from its own line: after a
/// listing has arrived, row `i` is the row for line `i` of the lines of
/// the payload that give rows.
pub proof fn lemma_rows_follow_lines(state: NcGopherView, url: AddressView, payload: Seq<char>, i: int)
    requires
        0 <= i < entry_lines(payload).len(),
    ensures
        state.show_content(url, payload, ContentType::Gophermap).content.len() == entry_lines(
            payload,
        ).len(),
        state.show_content(url, payload, ContentType::Gophermap).content[i] == item_of(
            entry_of_line(entry_lines(payload)[i]),
        ),
{
}

/// Events are applied in the order in which they were queued: applying a
/// queue that was extended by one event is applying the queue as it was, and
/// then that event.
pub proof fn lemma_drain_in_order(
    state: NcGopherView,
    messages: Seq<UiMessageView>,
    last: UiMessageView,
)
    ensures
        state.drain(messages.push(last)) == state.drain(messages).handle(last),
    decreases messages.len(),
{
    if messages.len() == 0 {
        reveal_with_fuel(NcGopherView::drain, 2);
    } else {
        assert(messages.push(last).drop_first() =~= messages.drop_first().push(last));
        lemma_drain_in_order(state.handle(messages[0]), messages.drop_first(), last);
    }
}

} // verus!
