//! The user interface's controller.
//!
//! The controller owns everything that the interface shows: the status
//! line, the two content panes, the menu bar and the dialogs. Events reach
//! it in two ways. What the backend reports, and what the interface asks of
//! itself, is queued as a `UiMessage` and applied in order by `step`. What
//! the user does (a key, a menu item, a row, a button of a dialog) is a
//! call of one of the action functions, which at most closes a dialog,
//! queues a message or makes a request to the backend.
//! Requests to the backend are queued too, and leave in order.

use crate::address::{begins_with_scheme, Address, AddressError, AddressView};
use crate::bookmarks::{Bookmark, BookmarkView};
use crate::controller::ControllerMessage;
use crate::dialogs::{DialogKind, Dialogs};
use crate::gophermap::{entry_lines, GopherMapEntry, ItemType, Listing, ListingItem};
use crate::history::{HistoryEntry, HistoryEntryView};
use crate::layout::{Layout, Pane};
use crate::menu::{find_menu, menus_wf, shortcuts, MenuAction, Menubar};
use crate::model::{
    filename_of, invalid_url_text, key_action, lemma_drain_keeps_queue, lemma_save_as_name,
    save_as_name, saved_text, selection_message, text_rows, NcGopherView,
};
use crate::text::{
    decimal_string, find_from, joined, lemma_find_contains, lines, split_lines, to_chars,
};
use vstd::prelude::*;

verus! {

/// How fetched content is to be treated.
#[derive(Clone, Copy, Debug, PartialEq, Eq, Structural)]
pub enum ContentType {
    Gophermap,
    Text,
    Binary,
}

/// A key that is bound to an action wherever no dialog takes it.
#[derive(Clone, Copy, Debug, PartialEq, Eq, Structural)]
pub enum Key {
    Char(char),
    Esc,
}

/// What the front end is to do after a key.
#[derive(Clone, Copy, Debug, PartialEq, Eq, Structural)]
pub enum KeyAction {
    /// Nothing.
    Nothing,
    /// End the program.
    Quit,
    /// Give the menu bar the focus.
    SelectMenubar,
    /// Show the debug console, or hide it if it is shown.
    ToggleDebugConsole,
}

/// An event for the controller.
#[derive(Debug, PartialEq, Eq)]
pub enum UiMessage {
    /// A bookmark was kept: show it in the bookmark menu.
    AddToBookmarkMenu(Bookmark),
    /// A resource was visited: show it in the history menu.
    AddToHistoryMenu(HistoryEntry),
    /// A download was written: the file's name and its size in bytes.
    BinaryWritten(String, usize),
    /// The history was forgotten: empty the history menu.
    ClearHistoryMenu,
    /// Ask for the query to send to the search server at the address.
    OpenQueryDialog(Address),
    /// Send the query to the search server at the address.
    OpenQueryUrl(Address, String),
    /// Open the address as content of the given kind.
    OpenUrl(Address, ContentType),
    /// Open what the text names.
    OpenURL(String),
    /// The page was saved: its address, its kind and the file's name.
    PageSaved(Address, ContentType, String),
    /// Ask for title and tags of a bookmark for the address.
    ShowAddBookmarkDialog(Address),
    /// Content has arrived: its address, the payload and its kind.
    ShowContent(Address, String, ContentType),
    /// Show the text in the status line.
    ShowMessage(String),
    /// Ask for a URL to open.
    ShowURLDialog,
    /// Ask for the name to save the page at the address under.
    ShowSaveAsDialog(Address),
    /// Ask for the term to send to the search server at the address.
    ShowSearchDialog(Address),
}

/// What a `UiMessage` stands for.
#[verifier::ext_equal]
pub enum UiMessageView {
    AddToBookmarkMenu(BookmarkView),
    AddToHistoryMenu(HistoryEntryView),
    BinaryWritten(Seq<char>, usize),
    ClearHistoryMenu,
    OpenQueryDialog(AddressView),
    OpenQueryUrl(AddressView, Seq<char>),
    OpenUrl(AddressView, ContentType),
    OpenURL(Seq<char>),
    PageSaved(AddressView, ContentType, Seq<char>),
    ShowAddBookmarkDialog(AddressView),
    ShowContent(AddressView, Seq<char>, ContentType),
    ShowMessage(Seq<char>),
    ShowURLDialog,
    ShowSaveAsDialog(AddressView),
    ShowSearchDialog(AddressView),
}

impl View for UiMessage {
    type V = UiMessageView;

    open spec fn view(&self) -> UiMessageView {
        match self {
            UiMessage::AddToBookmarkMenu(b) => UiMessageView::AddToBookmarkMenu(b@),
            UiMessage::AddToHistoryMenu(h) => UiMessageView::AddToHistoryMenu(h@),
            UiMessage::BinaryWritten(name, bytes) => UiMessageView::BinaryWritten(name@, *bytes),
            UiMessage::ClearHistoryMenu => UiMessageView::ClearHistoryMenu,
            UiMessage::OpenQueryDialog(url) => UiMessageView::OpenQueryDialog(url@),
            UiMessage::OpenQueryUrl(url, query) => UiMessageView::OpenQueryUrl(url@, query@),
            UiMessage::OpenUrl(url, kind) => UiMessageView::OpenUrl(url@, *kind),
            UiMessage::OpenURL(text) => UiMessageView::OpenURL(text@),
            UiMessage::PageSaved(url, kind, name) => UiMessageView::PageSaved(url@, *kind, name@),
            UiMessage::ShowAddBookmarkDialog(url) => UiMessageView::ShowAddBookmarkDialog(url@),
            UiMessage::ShowContent(url, content, kind) => UiMessageView::ShowContent(
                url@,
                content@,
                *kind,
            ),
            UiMessage::ShowMessage(text) => UiMessageView::ShowMessage(text@),
            UiMessage::ShowURLDialog => UiMessageView::ShowURLDialog,
            UiMessage::ShowSaveAsDialog(url) => UiMessageView::ShowSaveAsDialog(url@),
            UiMessage::ShowSearchDialog(url) => UiMessageView::ShowSearchDialog(url@),
        }
    }
}

impl DeepView for UiMessage {
    type V = UiMessageView;

    open spec fn deep_view(&self) -> UiMessageView {
        self@
    }
}

/// The two queues that everything that happens in the interface writes
/// to: the events for the controller itself, and the requests to the backend.
#[derive(Debug, PartialEq, Eq)]
pub struct UserData {
    pub ui_tx: Vec<UiMessage>,
    pub controller_tx: Vec<ControllerMessage>,
}

impl UserData {
    /// The two queues, holding what they are given.
    pub fn new(ui_tx: Vec<UiMessage>, controller_tx: Vec<ControllerMessage>) -> (r: UserData)
        ensures
            r.ui_tx == ui_tx,
            r.controller_tx == controller_tx,
    {
        UserData { ui_tx, controller_tx }
    }
}

/// The controller.
#[derive(Debug, PartialEq, Eq)]
pub struct NcGopher {
    running: bool,
    message: String,
    refresh: bool,
    layout: Layout,
    content: Vec<ListingItem>,
    text: Vec<String>,
    menubar: Menubar,
    dialogs: Dialogs,
    userdata: UserData,
    download_dir: Option<String>,
}

impl View for NcGopher {
    type V = NcGopherView;

    closed spec fn view(&self) -> NcGopherView {
        NcGopherView {
            running: self.running,
            message: self.message@,
            refresh: self.refresh,
            layout: self.layout@,
            content: self.content.deep_view(),
            text: self.text.deep_view(),
            menubar: self.menubar@,
            dialogs: self.dialogs@,
            ui_tx: self.userdata.ui_tx.deep_view(),
            controller_tx: self.userdata.controller_tx.deep_view(),
            download_dir: self.download_dir.deep_view(),
        }
    }
}

/// `dirs::home_dir`, with the path as a string where it is valid Unicode.
/// The result depends on the user's environment, so nothing is claimed of it.
#[verifier::external_body]
fn home_dir() -> Option<String> {
    dirs::home_dir().and_then(|path| path.into_os_string().into_string().ok())
}

/// The rows of the text pane for a payload.
fn text_rows_of(content: &str) -> (rows: Vec<String>)
    ensures
        rows.deep_view() == text_rows(content@),
{
    let chars = to_chars(content);
    let all = split_lines(&chars);
    let n: usize = all.len();
    let mut rows: Vec<String> = Vec::new();
    let mut i: usize = 0;
    while i < n
        invariant
            i <= n,
            n == all.len(),
            all.deep_view() == lines(content@),
            rows.deep_view() == lines(content@).take(i as int).map_values(
                |line: Seq<char>| "  "@ + line,
            ),
        decreases n - i,
    {
        let ghost before = rows.deep_view();
        let row = joined("  ", all[i].as_str());
        rows.push(row);
        assert(before.push(row@) =~= lines(content@).take(i + 1).map_values(
            |line: Seq<char>| "  "@ + line,
        ));
        i += 1;
    }
    rows
}

impl NcGopher {
    /// A controller at the start: running, nothing shown, nothing queued.
    pub fn new() -> (r: NcGopher)
        ensures
            r@ == NcGopherView::initial(),
    {
        NcGopher {
            running: true,
            message: String::new(),
            refresh: false,
            layout: Layout::new(),
            content: Vec::new(),
            text: Vec::new(),
            menubar: Menubar::new(),
            dialogs: Dialogs::new(),
            userdata: UserData::new(Vec::new(), Vec::new()),
            download_dir: None,
        }
    }

    /// The text of the status line.
    pub fn get_message(&self) -> (r: String)
        ensures
            r@ == self@.message,
    {
        self.message.clone()
    }

    /// Whether the render loop is still wanted.
    pub fn is_running(&self) -> (r: bool)
        ensures
            r == self@.running,
    {
        self.running
    }

    /// Which pane is shown, and the titles.
    pub fn layout(&self) -> (r: &Layout)
        ensures
            r@ == self@.layout,
    {
        &self.layout
    }

    /// The rows of the listing pane.
    pub fn content(&self) -> (r: &Vec<ListingItem>)
        ensures
            r.deep_view() == self@.content,
    {
        &self.content
    }

    /// The rows of the text pane.
    pub fn text(&self) -> (r: &Vec<String>)
        ensures
            r.deep_view() == self@.text,
    {
        &self.text
    }

    /// The menu bar. Its history menu holds at most ten shortcuts, in
    /// every state of the controller.
    pub fn menubar(&self) -> (r: &Menubar)
        ensures
            r@ == self@.menubar,
            menus_wf(self@.menubar),
    {
        let _ = self.menubar.trees();
        &self.menubar
    }

    /// The dialogs.
    pub fn dialogs(&self) -> (r: &Dialogs)
        ensures
            r@ == self@.dialogs,
    {
        &self.dialogs
    }

    /// The number of events that wait for the next step.
    pub fn pending(&self) -> (r: usize)
        ensures
            r == self@.ui_tx.len(),
    {
        self.userdata.ui_tx.len()
    }

    /// Where downloads go, if that is known.
    pub fn download_dir(&self) -> (r: &Option<String>)
        ensures
            r.deep_view() == self@.download_dir,
    {
        &self.download_dir
    }

    /// Queues an event for the next step.
    pub fn post(&mut self, message: UiMessage)
        ensures
            final(self)@ == old(self)@.send_ui(message@),
    {
        self.userdata.ui_tx.push(message);
    }

    /// Queues a request to the backend.
    fn request(&mut self, message: ControllerMessage)
        ensures
            final(self)@ == old(self)@.send_controller(message@),
    {
        self.userdata.controller_tx.push(message);
    }

    /// Hands out the requests that wait, oldest first. None waits after that.
    pub fn take_requests(&mut self) -> (r: Vec<ControllerMessage>)
        ensures
            r.deep_view() == old(self)@.controller_tx,
            final(self)@ == (NcGopherView { controller_tx: Seq::empty(), ..old(self)@ }),
    {
        let mut r: Vec<ControllerMessage> = Vec::new();
        core::mem::swap(&mut r, &mut self.userdata.controller_tx);
        r
    }

    /// Says whether a redraw was asked for since the last call.
    pub fn take_trigger(&mut self) -> (r: bool)
        ensures
            r == old(self)@.refresh,
            final(self)@ == (NcGopherView { refresh: false, ..old(self)@ }),
    {
        let r = self.refresh;
        self.refresh = false;
        r
    }

    /// Asks for a redraw.
    pub fn trigger(&mut self)
        ensures
            final(self)@ == old(self)@.trigger(),
    {
        self.refresh = true;
    }

    /// Ends the render loop: the next step, and every one after it, reports false.
    pub fn quit(&mut self)
        ensures
            final(self)@ == old(self)@.quit(),
    {
        self.running = false;
    }

    /// Sets the status line, and asks for a redraw.
    pub fn set_message(&mut self, msg: &str)
        ensures
            final(self)@ == old(self)@.set_message(msg@),
    {
        self.message = msg.to_owned();
        self.trigger();
    }

    /// Sets where downloads go.
    pub fn set_download_dir(&mut self, dir: Option<String>)
        ensures
            final(self)@ == old(self)@.set_download_dir(dir.deep_view()),
    {
        self.download_dir = dir;
    }

    /// Looks up the user's home directory and makes it the place where
    /// downloads go. Whatever the lookup gives, nothing else changes.
    pub fn locate_download_dir(&mut self)
        ensures
            final(self)@ == old(self)@.set_download_dir(final(self)@.download_dir),
    {
        let dir = home_dir();
        self.set_download_dir(dir);
    }

    /// Appends the standard menus to the menu bar.
    pub fn create_menubar(&mut self)
        ensures
            final(self)@ == old(self)@.create_menubar(),
    {
        self.menubar.add_standard_menus();
    }

    /// Sets the interface up: the standard menus, and the listing pane shown.
    pub fn setup_ui(&mut self)
        ensures
            final(self)@ == old(self)@.setup_ui(),
    {
        self.create_menubar();
        self.layout = Layout::new();
    }

    /// Shows a notice.
    pub fn show_info(&mut self, text: String)
        ensures
            final(self)@ == old(self)@.show_info(text@),
    {
        self.dialogs.info = Some(text);
    }

    /// Closes the dialog of the given kind: what its Cancel button does, and
    /// the button of a notice.
    pub fn close_dialog(&mut self, kind: DialogKind)
        ensures
            final(self)@ == old(self)@.close_dialog(kind),
            !final(self)@.dialogs.is_open(kind),
    {
        self.dialogs.close(kind);
    }

    /// The name that a download from `url` is written under.
    pub fn get_filename_from_url(url: &Address) -> (r: String)
        ensures
            r@ == filename_of(url@),
    {
        match url.last_segment() {
            Some(segment) => segment,
            None => "download.bin".to_owned(),
        }
    }

    /// The name that the save-as dialog proposes for `url`: the last segment
    /// of its path, or `download` where it has no segment or an empty one;
    /// with `.txt` behind it where it holds no full stop, and so has no
    /// extension.
    pub fn save_as_filename(url: &Address) -> (r: String)
        ensures
            r@ == save_as_name(url@),
            url@.last_segment() is None ==> r@ == "download"@ + ".txt"@,
    {
        proof {
            lemma_save_as_name(url@);
        }
        let base = match url.last_segment() {
            Some(segment) => {
                if segment.as_str().is_empty() {
                    "download".to_owned()
                } else {
                    segment
                }
            },
            None => "download".to_owned(),
        };
        let chars = to_chars(base.as_str());
        let dot: usize = find_from(&chars, 0, '.');
        proof {
            assert(chars@.skip(0) =~= chars@);
            lemma_find_contains(chars@, '.');
        }
        if dot < chars.len() {
            base
        } else {
            joined(base.as_str(), ".txt")
        }
    }

    /// Reports a finished download in the status line.
    pub fn binary_written(&mut self, filename: String, bytes: usize)
        ensures
            final(self)@ == old(self)@.binary_written(filename@, bytes),
    {
        let mut text = joined("File downloaded: ", filename.as_str());
        text.append(" (");
        text.append(decimal_string(bytes).as_str());
        text.append(" bytes)");
        self.set_message(text.as_str());
    }

    /// Reports a saved page in the status line.
    pub fn page_saved(&mut self, filename: String)
        ensures
            final(self)@ == old(self)@.set_message(saved_text(filename@)),
    {
        let mut text = joined("Page saved as '", filename.as_str());
        text.append("'.");
        self.set_message(text.as_str());
    }

    /// Asks the backend to fetch `url` as content of the given kind, says so
    /// in the status line, and shows the listing pane.
    pub fn open_gopher_address(&mut self, url: Address, content_type: ContentType)
        ensures
            final(self)@ == old(self)@.open_gopher_address(url@, content_type),
    {
        self.set_message("Loading ...");
        self.layout.set_view(Pane::Content);
        self.request(ControllerMessage::FetchUrl(url, content_type, String::new()));
    }

    /// Goes on with what the parser made of a URL that the user typed: an
    /// address is opened as a listing, an error is reported in the status line.
    pub fn open_parsed_url(&mut self, parsed: Result<Address, AddressError>)
        ensures
            final(self)@ == match parsed {
                Ok(url) => old(self)@.open_gopher_address(url@, ContentType::Gophermap),
                Err(error) => old(self)@.set_message(invalid_url_text(error@)),
            },
    {
        match parsed {
            Ok(url) => {
                self.open_gopher_address(url, ContentType::Gophermap);
            },
            Err(error) => {
                let text = joined("Invalid URL: ", error.message());
                self.set_message(text.as_str());
            },
        }
    }

    /// Opens what the user typed. A text that begins with no scheme is
    /// given the scheme `gopher://`; then the text is parsed. What the parser
    /// accepts is opened as a listing; what it refuses is reported in the
    /// status line.
    pub fn open_gopher_url_string(&mut self, url: String)
        ensures
            final(self)@ == old(self)@.open_gopher_url_string(url@),
    {
        let text = if begins_with_scheme(url.as_str()) {
            url
        } else {
            joined("gopher://", url.as_str())
        };
        let parsed = Address::parse(text.as_str());
        self.open_parsed_url(parsed);
    }

    /// Opens an address as if the user had typed it.
    pub fn open_gopher_url(&mut self, url: Address)
        ensures
            final(self)@ == old(self)@.open_gopher_url(url@),
    {
        self.open_gopher_url_string(url.to_string());
    }

    /// Asks the backend to send `query` to the search server at `url`.
    pub fn query(&mut self, url: Address, query: String)
        ensures
            final(self)@ == old(self)@.query(url@, query@),
    {
        self.set_message("Loading ...");
        self.request(ControllerMessage::FetchUrl(url, ContentType::Gophermap, query));
    }

    /// Asks the backend to fetch `url` into the directory `local_path`.
    pub fn fetch_binary_file(&mut self, url: Address, local_path: String)
        ensures
            final(self)@ == old(self)@.fetch_binary_file(url@, local_path@),
    {
        let filename = NcGopher::get_filename_from_url(&url);
        let mut path = joined(local_path.as_str(), "/");
        path.append(filename.as_str());
        self.request(ControllerMessage::FetchBinaryUrl(url, path));
    }

    /// Opens `url` as content of the given kind. A download goes to the
    /// download directory; where that is not known, the status line says so.
    pub fn open_url(&mut self, url: Address, content_type: ContentType)
        ensures
            final(self)@ == old(self)@.open_url(url@, content_type),
    {
        match content_type {
            ContentType::Binary => {
                let dir = match &self.download_dir {
                    Some(dir) => Some(dir.clone()),
                    None => None,
                };
                match dir {
                    Some(dir) => {
                        self.fetch_binary_file(url, dir);
                    },
                    None => {
                        self.set_message("Could not find download dir");
                    },
                }
            },
            _ => {
                self.open_gopher_address(url, content_type);
            },
        }
    }

    /// Shows a listing: the rows and the title of what the payload is
    /// classified as take the place of what the listing pane held.
    pub fn show_gophermap(&mut self, content: String)
        ensures
            final(self)@ == old(self)@.show_gophermap(content@),
            final(self)@.content.len() == entry_lines(content@).len(),
    {
        let listing = Listing::classify(content.as_str());
        self.content = listing.items;
        self.layout.set_title(Pane::Content, listing.title);
    }

    /// Shows a text file: its lines take the place of what the text pane
    /// held, and the text pane is shown.
    pub fn show_text_file(&mut self, content: String)
        ensures
            final(self)@ == old(self)@.show_text_file(content@),
    {
        self.layout.set_view(Pane::Text);
        self.text = text_rows_of(content.as_str());
    }

    /// Shows content that has arrived, and names its address in the status line.
    pub fn show_content(&mut self, url: Address, content: String, content_type: ContentType)
        ensures
            final(self)@ == old(self)@.show_content(url@, content@, content_type),
    {
        match content_type {
            ContentType::Gophermap => {
                self.show_gophermap(content);
            },
            ContentType::Text => {
                self.show_text_file(content);
            },
            ContentType::Binary => {},
        }
        self.set_message(url.as_str());
    }

    /// Opens the dialog that asks for a URL.
    pub fn show_url_dialog(&mut self)
        ensures
            final(self)@ == old(self)@.show_url_dialog(),
            final(self)@.dialogs.is_open(DialogKind::Url),
    {
        self.dialogs.url = true;
        self.trigger();
    }

    /// Opens the dialog that asks for the query for the search server at `url`.
    pub fn open_query_dialog(&mut self, url: Address)
        ensures
            final(self)@ == old(self)@.open_query_dialog(url@),
    {
        self.dialogs.query = Some(url);
        self.trigger();
    }

    /// Opens the dialog that asks for the term for the search server at `url`.
    pub fn show_search_dialog(&mut self, url: Address)
        ensures
            final(self)@ == old(self)@.show_search_dialog(url@),
    {
        self.dialogs.search = Some(url);
        self.trigger();
    }

    /// Opens the dialog that asks for the name to save the page at `url`
    /// under, with a name proposed.
    pub fn show_save_as_dialog(&mut self, url: Address)
        ensures
            final(self)@ == old(self)@.show_save_as_dialog(url@),
            final(self)@.dialogs.save_as == Some(save_as_name(url@)),
    {
        let filename = NcGopher::save_as_filename(&url);
        self.dialogs.save_as = Some(filename);
        self.trigger();
    }

    /// Opens the dialog that asks for title and tags of a bookmark for `url`.
    pub fn show_add_bookmark_dialog(&mut self, url: Address)
        ensures
            final(self)@ == old(self)@.show_add_bookmark_dialog(url@),
    {
        self.dialogs.add_bookmark = Some(url);
        self.trigger();
    }

    /// Puts a shortcut for the bookmark at the head of the bookmark menu.
    pub fn add_to_bookmark_menu(&mut self, b: Bookmark)
        ensures
            final(self)@ == old(self)@.add_to_bookmark_menu(b@),
    {
        self.menubar.insert_bookmark(&b);
    }

    /// Puts a shortcut for the entry at the head of the history menu. The
    /// menu holds at most ten shortcuts: if it held ten, the oldest leaves.
    pub fn add_to_history_menu(&mut self, h: HistoryEntry)
        ensures
            final(self)@ == old(self)@.add_to_history_menu(h@),
            menus_wf(final(self)@.menubar),
    {
        self.menubar.insert_history(&h);
    }

    /// Removes every shortcut from the history menu.
    pub fn clear_history_menu(&mut self)
        ensures
            final(self)@ == old(self)@.clear_history_menu(),
            menus_wf(final(self)@.menubar),
            ({
                let i = find_menu(old(self)@.menubar, "History"@);
                0 <= i < old(self)@.menubar.len() ==> shortcuts(
                    final(self)@.menubar[i].items,
                ).len() == 0
            }),
    {
        self.menubar.clear_history();
    }

    /// What a key does. `q` ends the program, `g` asks for a URL, `b` goes
    /// back, `s` asks to save the page; Esc and `~` change nothing here
    /// and ask the front end for the menu bar and the debug console. Any other
    /// key does nothing.
    pub fn on_key(&mut self, key: Key) -> (r: KeyAction)
        ensures
            final(self)@ == old(self)@.on_key(key),
            r == key_action(key),
    {
        match key {
            Key::Char(c) => {
                if c == 'q' {
                    self.quit();
                    KeyAction::Quit
                } else if c == 'g' {
                    self.post(UiMessage::ShowURLDialog);
                    KeyAction::Nothing
                } else if c == 'b' {
                    self.request(ControllerMessage::NavigateBack);
                    KeyAction::Nothing
                } else if c == 's' {
                    self.request(ControllerMessage::RequestSaveAsDialog);
                    KeyAction::Nothing
                } else if c == '~' {
                    KeyAction::ToggleDebugConsole
                } else {
                    KeyAction::Nothing
                }
            },
            Key::Esc => KeyAction::SelectMenubar,
        }
    }

    /// Goes on with what the parser made of the address of a search server
    /// from the menu: for an address the search dialog is asked for, an
    /// error is reported in the status line.
    pub fn search_parsed_url(&mut self, parsed: Result<Address, AddressError>)
        ensures
            final(self)@ == match parsed {
                Ok(url) => old(self)@.send_ui(UiMessageView::ShowSearchDialog(url@)),
                Err(error) => old(self)@.set_message(invalid_url_text(error@)),
            },
    {
        match parsed {
            Ok(url) => {
                self.post(UiMessage::ShowSearchDialog(url));
            },
            Err(error) => {
                let text = joined("Invalid URL: ", error.message());
                self.set_message(text.as_str());
            },
        }
    }

    /// Does what a menu item stands for.
    pub fn perform(&mut self, action: MenuAction)
        ensures
            final(self)@ == old(self)@.perform(action@),
    {
        match action {
            MenuAction::ShowUrlDialog => {
                self.post(UiMessage::ShowURLDialog);
            },
            MenuAction::RequestSaveAs => {
                self.request(ControllerMessage::RequestSaveAsDialog);
            },
            MenuAction::Info(text) => {
                self.show_info(text);
            },
            MenuAction::Quit => {
                self.quit();
            },
            MenuAction::ConfirmClearHistory => {
                self.dialogs.clear_history = true;
            },
            MenuAction::RequestAddBookmark => {
                self.request(ControllerMessage::RequestAddBookmarkDialog);
            },
            MenuAction::Search(text) => {
                let parsed = Address::parse(text.as_str());
                self.search_parsed_url(parsed);
            },
            MenuAction::OpenUrl(text) => {
                self.post(UiMessage::OpenURL(text));
            },
        }
    }

    /// The user chose item `item` of menu `tree`.
    pub fn select_menu_item(&mut self, tree: usize, item: usize)
        ensures
            final(self)@ == old(self)@.select_menu_item(tree as int, item as int),
    {
        match self.menubar.action_at(tree, item) {
            Some(action) => {
                self.perform(action);
            },
            None => {},
        }
    }

    /// The user chose item `child` of the menu that is item `item` of menu `tree`.
    pub fn select_submenu_item(&mut self, tree: usize, item: usize, child: usize)
        ensures
            final(self)@ == old(self)@.select_submenu_item(tree as int, item as int, child as int),
    {
        match self.menubar.sub_action_at(tree, item, child) {
            Some(action) => {
                self.perform(action);
            },
            None => {},
        }
    }

    /// What choosing `entry` asks for.
    pub fn selection(entry: &GopherMapEntry) -> (r: Option<UiMessage>)
        ensures
            r.deep_view() == selection_message(entry@),
    {
        match &entry.url {
            Some(url) => match entry.item_type {
                ItemType::Dir => Some(UiMessage::OpenUrl(url.clone(), ContentType::Gophermap)),
                ItemType::File => Some(UiMessage::OpenUrl(url.clone(), ContentType::Text)),
                ItemType::Binary | ItemType::BinHex | ItemType::Dos | ItemType::Image | ItemType::Gif => Some(
                    UiMessage::OpenUrl(url.clone(), ContentType::Binary),
                ),
                ItemType::IndexServer => Some(UiMessage::OpenQueryDialog(url.clone())),
                _ => None,
            },
            None => None,
        }
    }

    /// The user chose row `index` of the listing.
    pub fn select_entry(&mut self, index: usize)
        ensures
            final(self)@ == old(self)@.select_entry(index as int),
    {
        if index < self.content.len() {
            let message = NcGopher::selection(&self.content[index].entry);
            match message {
                Some(message) => {
                    self.post(message);
                },
                None => {},
            }
        }
    }

    /// The user submitted the URL dialog with `name`.
    pub fn open_url_action(&mut self, name: &str)
        ensures
            final(self)@ == old(self)@.open_url_action(name@),
            !final(self)@.dialogs.is_open(DialogKind::Url),
    {
        if self.dialogs.url {
            self.close_dialog(DialogKind::Url);
            self.post(UiMessage::OpenURL(name.to_owned()));
        }
    }

    /// The user submitted the query dialog with `text`.
    pub fn query_action(&mut self, text: &str)
        ensures
            final(self)@ == old(self)@.query_action(text@),
            !final(self)@.dialogs.is_open(DialogKind::Query),
    {
        match self.dialogs.query.take() {
            Some(url) => {
                if !text.is_empty() {
                    self.post(UiMessage::OpenQueryUrl(url, text.to_owned()));
                }
            },
            None => {
            },
        }
    }

    /// The user submitted the search dialog with `text`.
    pub fn search_action(&mut self, text: &str)
        ensures
            final(self)@ == old(self)@.search_action(text@),
            !final(self)@.dialogs.is_open(DialogKind::Search),
    {
        match self.dialogs.search.take() {
            Some(url) => {
                if !text.is_empty() {
                    self.post(UiMessage::OpenQueryUrl(url, text.to_owned()));
                } else {
                    self.show_info("No search parameter!".to_owned());
                }
            },
            None => {
            },
        }
    }

    /// The user submitted the save-as dialog with `name`.
    pub fn save_as_action(&mut self, name: &str)
        ensures
            final(self)@ == old(self)@.save_as_action(name@),
            !final(self)@.dialogs.is_open(DialogKind::SaveAs),
    {
        if self.dialogs.save_as.is_some() {
            self.close_dialog(DialogKind::SaveAs);
            if !name.is_empty() {
                self.request(ControllerMessage::SavePageAs(name.to_owned()));
            } else {
                self.show_info("No filename given!".to_owned());
            }
        }
    }

    /// The user submitted the add-bookmark dialog with `title` and `tags`;
    /// either may be empty.
    pub fn add_bookmark_action(&mut self, title: &str, tags: &str)
        ensures
            final(self)@ == old(self)@.add_bookmark_action(title@, tags@),
            !final(self)@.dialogs.is_open(DialogKind::AddBookmark),
    {
        match self.dialogs.add_bookmark.take() {
            Some(url) => {
                self.request(ControllerMessage::AddBookmark(url, title.to_owned(), tags.to_owned()));
            },
            None => {
            },
        }
    }

    /// The user confirmed that the history is to be deleted.
    pub fn clear_history_action(&mut self)
        ensures
            final(self)@ == old(self)@.clear_history_action(),
            !final(self)@.dialogs.is_open(DialogKind::ClearHistory),
    {
        if self.dialogs.clear_history {
            self.close_dialog(DialogKind::ClearHistory);
            self.request(ControllerMessage::ClearHistory);
        }
    }

    /// Applies one event.
    pub fn handle(&mut self, message: UiMessage)
        ensures
            final(self)@ == old(self)@.handle(message@),
    {
        match message {
            UiMessage::AddToBookmarkMenu(bookmark) => {
                self.add_to_bookmark_menu(bookmark);
            },
            UiMessage::AddToHistoryMenu(history_entry) => {
                self.add_to_history_menu(history_entry);
            },
            UiMessage::BinaryWritten(filename, bytes_written) => {
                self.binary_written(filename, bytes_written);
            },
            UiMessage::ClearHistoryMenu => {
                self.clear_history_menu();
            },
            UiMessage::PageSaved(_url, _content_type, filename) => {
                self.page_saved(filename);
            },
            UiMessage::ShowAddBookmarkDialog(url) => {
                self.show_add_bookmark_dialog(url);
            },
            UiMessage::ShowContent(url, content, content_type) => {
                self.show_content(url, content, content_type);
            },
            UiMessage::OpenQueryDialog(url) => {
                self.open_query_dialog(url);
            },
            UiMessage::OpenQueryUrl(url, query) => {
                self.query(url, query);
            },
            UiMessage::OpenUrl(url, content_type) => {
                self.open_url(url, content_type);
            },
            UiMessage::OpenURL(url) => {
                self.open_gopher_url_string(url);
            },
            UiMessage::ShowMessage(msg) => {
                self.set_message(msg.as_str());
            },
            UiMessage::ShowURLDialog => {
                self.show_url_dialog();
            },
            UiMessage::ShowSaveAsDialog(url) => {
                self.show_save_as_dialog(url);
            },
            UiMessage::ShowSearchDialog(url) => {
                self.show_search_dialog(url);
            },
        }
    }

    /// One tick of the message pump. A controller that no longer runs
    /// reports false and changes nothing. One that runs applies every event
    /// that waits, oldest first, and reports true: the caller then advances
    /// the render loop by exactly one step.
    pub fn step(&mut self) -> (r: bool)
        ensures
            r == old(self)@.running,
            final(self)@ == old(self)@.step(),
            final(self)@.running ==> final(self)@.ui_tx.len() == 0,
    {
        if !self.running {
            return false;
        }
        let mut pending: Vec<UiMessage> = Vec::new();
        core::mem::swap(&mut pending, &mut self.userdata.ui_tx);
        let ghost messages = pending.deep_view();
        let ghost start = self@;
        assert(start =~~= (NcGopherView { ui_tx: Seq::empty(), ..old(self)@ }));
        assert(messages.skip(0) =~= messages);
        for message in it: pending
            invariant
                it.seq().len() == messages.len(),
                forall|i: int| 0 <= i < messages.len() ==> it.seq()[i]@ == #[trigger] messages[i],
                self@.drain(messages.skip(it.index() as int)) == start.drain(messages),
        {
            let ghost rest = messages.skip(it.index() as int);
            assert(rest.drop_first() =~= messages.skip(it.index() + 1));
            self.handle(message);
        }
        proof {
            lemma_drain_keeps_queue(start, messages);
        }
        true
    }
}

} // verus!
