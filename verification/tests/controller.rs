use ncgopher::address::Address;
use ncgopher::bookmarks::Bookmark;
use ncgopher::controller::ControllerMessage;
use ncgopher::dialogs::{DialogKind, Dialogs};
use ncgopher::gophermap::{GopherMapEntry, ItemType};
use ncgopher::history::HistoryEntry;
use ncgopher::layout::Pane;
use ncgopher::menu::{MenuAction, MenuItem};
use ncgopher::ncgopher::{ContentType, Key, KeyAction, NcGopher, UiMessage, UserData};

fn addr(s: &str) -> Address {
    Address::parse(s).unwrap()
}

fn ready() -> NcGopher {
    let mut ui = NcGopher::new();
    ui.setup_ui();
    ui
}

fn history_labels(ui: &NcGopher) -> Vec<String> {
    ui.menubar().trees()[1].items[3..]
        .iter()
        .map(|item| match item {
            MenuItem::Leaf(leaf) => leaf.label.clone(),
            other => panic!("no leaf: {:?}", other),
        })
        .collect()
}

#[test]
fn new_controller_runs_and_shows_nothing() {
    let mut ui = NcGopher::new();
    assert!(ui.is_running());
    assert_eq!(ui.get_message(), "");
    assert_eq!(ui.layout().active(), Pane::Content);
    assert_eq!(ui.layout().title(Pane::Content), "Gophermap");
    assert_eq!(ui.layout().title(Pane::Text), "Textfile");
    assert!(ui.content().is_empty());
    assert!(ui.text().is_empty());
    assert!(ui.menubar().trees().is_empty());
    assert_eq!(*ui.dialogs(), Dialogs::new());
    assert_eq!(ui.pending(), 0);
    assert!(ui.take_requests().is_empty());
    assert!(!ui.take_trigger());
    assert_eq!(*ui.download_dir(), None);
}

#[test]
fn user_data_holds_the_two_queues() {
    let u = UserData::new(vec![UiMessage::ShowURLDialog], vec![ControllerMessage::NavigateBack]);
    assert_eq!(u.ui_tx, vec![UiMessage::ShowURLDialog]);
    assert_eq!(u.controller_tx, vec![ControllerMessage::NavigateBack]);
}

#[test]
fn setup_builds_the_menus() {
    let ui = ready();
    assert_eq!(ui.menubar().trees().len(), 5);
    assert_eq!(ui.layout().active(), Pane::Content);
}

#[test]
fn set_message_overwrites_and_asks_for_a_redraw() {
    let mut ui = NcGopher::new();
    ui.set_message("one");
    ui.set_message("two");
    assert_eq!(ui.get_message(), "two");
    assert!(ui.take_trigger());
    assert!(!ui.take_trigger());
}

#[test]
fn step_of_a_stopped_controller_reports_false_and_changes_nothing() {
    let mut ui = ready();
    ui.post(UiMessage::ShowMessage("never shown".to_string()));
    ui.quit();
    assert!(!ui.step());
    assert_eq!(ui.get_message(), "");
    assert_eq!(ui.pending(), 1);
    assert!(!ui.step());
}

#[test]
fn step_with_an_empty_queue_reports_true() {
    let mut ui = ready();
    assert!(ui.step());
    assert_eq!(ui.get_message(), "");
}

#[test]
fn step_shows_listing_then_status() {
    let a = addr("gopher://example.org:70/1/menu");
    let payload = "1First\t/a\texample.org\t70\r\n0Second\t/b\texample.org\t70\r\n.\r\n";
    let mut ui = ready();
    ui.post(UiMessage::ShowContent(a, payload.to_string(), ContentType::Gophermap));
    ui.post(UiMessage::ShowMessage("X".to_string()));
    assert!(ui.step());
    assert_eq!(ui.get_message(), "X");
    assert_eq!(ui.pending(), 0);
    assert_eq!(ui.content().len(), 2);
    assert_eq!(ui.content()[0].label, "[MAP]  First");
    assert_eq!(ui.content()[1].label, "[FILE] Second");
    assert_eq!(ui.layout().active(), Pane::Content);
    assert!(ui.take_requests().is_empty());
}

#[test]
fn events_are_applied_in_the_order_of_arrival() {
    let mut ui = ready();
    ui.post(UiMessage::ShowMessage("first".to_string()));
    ui.post(UiMessage::ShowMessage("second".to_string()));
    ui.post(UiMessage::ShowMessage("third".to_string()));
    assert!(ui.step());
    assert_eq!(ui.get_message(), "third");
    let mut other = ready();
    other.post(UiMessage::ShowMessage("third".to_string()));
    other.post(UiMessage::ShowMessage("first".to_string()));
    assert!(other.step());
    assert_eq!(other.get_message(), "first");
}

#[test]
fn content_sets_the_status_to_its_address() {
    let mut ui = ready();
    ui.show_content(addr("gopher://example.org:70/0/a.txt"), "one\ntwo\n".to_string(), ContentType::Text);
    assert_eq!(ui.get_message(), "gopher://example.org:70/0/a.txt");
    assert_eq!(ui.layout().active(), Pane::Text);
    assert_eq!(*ui.text(), vec!["  one".to_string(), "  two".to_string()]);
}

#[test]
fn binary_content_is_not_shown() {
    let mut ui = ready();
    ui.show_gophermap("1A\t/a\texample.org\t70\n".to_string());
    ui.show_content(addr("gopher://example.org:70/9/a.bin"), "bytes".to_string(), ContentType::Binary);
    assert_eq!(ui.content().len(), 1);
    assert!(ui.text().is_empty());
    assert_eq!(ui.layout().active(), Pane::Content);
    assert_eq!(ui.get_message(), "gopher://example.org:70/9/a.bin");
}

#[test]
fn panes_keep_their_content_when_the_other_is_shown() {
    let mut ui = ready();
    ui.show_gophermap("1A\t/a\texample.org\t70\n".to_string());
    ui.show_text_file("hello".to_string());
    assert_eq!(ui.layout().active(), Pane::Text);
    assert_eq!(ui.content().len(), 1);
    ui.open_gopher_address(addr("gopher://example.org:70/1/b"), ContentType::Gophermap);
    assert_eq!(ui.layout().active(), Pane::Content);
    assert_eq!(*ui.text(), vec!["  hello".to_string()]);
    assert_eq!(ui.content().len(), 1);
}

#[test]
fn new_listing_takes_the_place_of_the_old() {
    let mut ui = ready();
    ui.show_gophermap("/old\n1A\t/a\texample.org\t70\n1B\t/b\texample.org\t70\n".to_string());
    assert_eq!(ui.layout().title(Pane::Content), "/old");
    assert_eq!(ui.content().len(), 2);
    ui.show_gophermap("1C\t/c\texample.org\t70\n".to_string());
    assert_eq!(ui.layout().title(Pane::Content), "");
    assert_eq!(ui.content().len(), 1);
    assert_eq!(ui.content()[0].entry.name, "C");
}

#[test]
fn stale_content_is_shown_all_the_same() {
    let mut ui = ready();
    ui.open_gopher_address(addr("gopher://example.org:70/1/new"), ContentType::Gophermap);
    ui.post(UiMessage::ShowContent(
        addr("gopher://example.org:70/1/old"),
        "1Old\t/old\texample.org\t70\n".to_string(),
        ContentType::Gophermap,
    ));
    assert!(ui.step());
    assert_eq!(ui.content()[0].entry.name, "Old");
    assert_eq!(ui.get_message(), "gopher://example.org:70/1/old");
}

#[test]
fn open_address_asks_the_backend() {
    let mut ui = ready();
    let a = addr("gopher://example.org:70/0/a.txt");
    ui.open_gopher_address(a.clone(), ContentType::Text);
    assert_eq!(ui.get_message(), "Loading ...");
    assert_eq!(
        ui.take_requests(),
        vec![ControllerMessage::FetchUrl(a, ContentType::Text, String::new())]
    );
    assert!(ui.take_requests().is_empty());
}

#[test]
fn url_without_scheme_gets_the_scheme() {
    let mut ui = ready();
    ui.open_gopher_url_string("example.org/1/".to_string());
    assert_eq!(ui.get_message(), "Loading ...");
    assert_eq!(
        ui.take_requests(),
        vec![ControllerMessage::FetchUrl(
            addr("gopher://example.org/1/"),
            ContentType::Gophermap,
            String::new()
        )]
    );
}

#[test]
fn url_with_scheme_is_taken_as_it_is() {
    let mut ui = ready();
    ui.open_gopher_url_string("gopher://example.org:7070/1/x".to_string());
    assert_eq!(
        ui.take_requests(),
        vec![ControllerMessage::FetchUrl(
            addr("gopher://example.org:7070/1/x"),
            ContentType::Gophermap,
            String::new()
        )]
    );
}

#[test]
fn url_with_another_scheme_is_taken_as_it_is() {
    let mut ui = ready();
    ui.open_gopher_url_string("gemini://example.org/".to_string());
    assert_eq!(ui.get_message(), "Loading ...");
    assert_eq!(
        ui.take_requests(),
        vec![ControllerMessage::FetchUrl(
            addr("gemini://example.org/"),
            ContentType::Gophermap,
            String::new()
        )]
    );
    ui.open_gopher_url_string("HTTP://example.org/a".to_string());
    let out = ui.take_requests();
    assert_eq!(out.len(), 1);
    match &out[0] {
        ControllerMessage::FetchUrl(url, _, _) => assert_eq!(url.as_str(), "http://example.org/a"),
        other => panic!("no fetch: {:?}", other),
    }
}

#[test]
fn host_with_port_gets_the_scheme() {
    let mut ui = ready();
    ui.open_gopher_url_string("example.org:7070/1/x".to_string());
    assert_eq!(
        ui.take_requests(),
        vec![ControllerMessage::FetchUrl(
            addr("gopher://example.org:7070/1/x"),
            ContentType::Gophermap,
            String::new()
        )]
    );
}

#[test]
fn text_that_only_looks_like_a_scheme_gets_the_scheme() {
    let mut ui = ready();
    ui.open_gopher_url_string("mailto:someone".to_string());
    assert_eq!(ui.get_message(), "Invalid URL: invalid port number");
    assert!(ui.take_requests().is_empty());
    for input in ["1st://example.org/", "+x://example.org/"] {
        ui.open_gopher_url_string(input.to_string());
        let out = ui.take_requests();
        assert_eq!(out.len(), 1, "for {:?}", input);
        match &out[0] {
            ControllerMessage::FetchUrl(url, _, _) => {
                assert!(url.as_str().starts_with("gopher://"), "for {:?}", input)
            }
            other => panic!("no fetch: {:?}", other),
        }
    }
}

#[test]
fn url_that_cannot_be_parsed_is_reported() {
    let mut ui = ready();
    ui.open_gopher_url_string("example.org:99999/".to_string());
    assert_eq!(ui.get_message(), "Invalid URL: invalid port number");
    assert!(ui.take_requests().is_empty());
    assert!(ui.is_running());
}

#[test]
fn open_parsed_url_goes_by_the_outcome() {
    let mut ui = ready();
    ui.open_parsed_url(Address::parse("no scheme"));
    assert_eq!(ui.get_message(), "Invalid URL: relative URL without a base");
    ui.open_parsed_url(Address::parse("gopher://example.org/"));
    assert_eq!(ui.get_message(), "Loading ...");
    assert_eq!(ui.take_requests().len(), 1);
}

#[test]
fn open_gopher_url_opens_as_listing() {
    let mut ui = ready();
    let a = addr("gopher://example.org:70/1/menu");
    ui.open_gopher_url(a.clone());
    assert_eq!(
        ui.take_requests(),
        vec![ControllerMessage::FetchUrl(a, ContentType::Gophermap, String::new())]
    );
}

#[test]
fn url_dialog_submit_closes_and_opens() {
    let mut ui = ready();
    ui.on_key(Key::Char('g'));
    assert!(ui.step());
    assert!(ui.dialogs().is_open(DialogKind::Url));
    ui.open_url_action("example.org/1/");
    assert!(!ui.dialogs().is_open(DialogKind::Url));
    assert_eq!(ui.pending(), 1);
    assert!(ui.step());
    assert_eq!(
        ui.take_requests(),
        vec![ControllerMessage::FetchUrl(
            addr("gopher://example.org/1/"),
            ContentType::Gophermap,
            String::new()
        )]
    );
}

#[test]
fn url_dialog_submit_of_rubbish_leaves_a_status() {
    let mut ui = ready();
    ui.show_url_dialog();
    ui.open_url_action("[");
    assert!(!ui.dialogs().is_open(DialogKind::Url));
    assert!(ui.step());
    assert!(ui.get_message().starts_with("Invalid URL: "));
    assert!(ui.get_message().len() > "Invalid URL: ".len());
    assert!(ui.take_requests().is_empty());
}

#[test]
fn url_dialog_submit_without_dialog_does_nothing() {
    let mut ui = ready();
    ui.open_url_action("example.org");
    assert_eq!(ui.pending(), 0);
}

#[test]
fn url_dialog_cancel_closes_without_effect() {
    let mut ui = ready();
    ui.show_url_dialog();
    ui.close_dialog(DialogKind::Url);
    assert_eq!(*ui.dialogs(), Dialogs::new());
    assert_eq!(ui.pending(), 0);
    assert!(ui.take_requests().is_empty());
}

#[test]
fn query_dialog_sends_the_query() {
    let a = addr("gopher://example.org:70/7/search");
    let mut ui = ready();
    ui.post(UiMessage::OpenQueryDialog(a.clone()));
    assert!(ui.step());
    assert_eq!(ui.dialogs().query, Some(a.clone()));
    ui.query_action("rust");
    assert_eq!(ui.dialogs().query, None);
    assert!(ui.step());
    assert_eq!(ui.get_message(), "Loading ...");
    assert_eq!(
        ui.take_requests(),
        vec![ControllerMessage::FetchUrl(a, ContentType::Gophermap, "rust".to_string())]
    );
}

#[test]
fn query_dialog_with_empty_text_closes_silently() {
    let mut ui = ready();
    ui.open_query_dialog(addr("gopher://example.org:70/7/search"));
    ui.query_action("");
    assert_eq!(*ui.dialogs(), Dialogs::new());
    assert_eq!(ui.pending(), 0);
    assert!(ui.take_requests().is_empty());
}

#[test]
fn search_dialog_with_empty_text_shows_a_notice() {
    let mut ui = ready();
    ui.show_search_dialog(addr("gopher://gopher.floodgap.com:70/v2/vs"));
    ui.search_action("");
    assert_eq!(ui.dialogs().search, None);
    assert_eq!(ui.dialogs().info, Some("No search parameter!".to_string()));
    assert_eq!(ui.pending(), 0);
    ui.close_dialog(DialogKind::Info);
    assert_eq!(*ui.dialogs(), Dialogs::new());
}

#[test]
fn search_dialog_sends_the_term() {
    let a = addr("gopher://gopher.floodgap.com:70/v2/vs");
    let mut ui = ready();
    ui.show_search_dialog(a.clone());
    ui.search_action("gopher");
    assert!(ui.step());
    assert_eq!(
        ui.take_requests(),
        vec![ControllerMessage::FetchUrl(a, ContentType::Gophermap, "gopher".to_string())]
    );
}

#[test]
fn opening_a_dialog_again_replaces_it() {
    let mut ui = ready();
    ui.open_query_dialog(addr("gopher://example.org:70/7/one"));
    ui.open_query_dialog(addr("gopher://example.org:70/7/two"));
    assert_eq!(ui.dialogs().query, Some(addr("gopher://example.org:70/7/two")));
    ui.query_action("q");
    assert_eq!(ui.dialogs().query, None);
}

#[test]
fn save_as_dialog_proposes_the_last_segment() {
    let mut ui = ready();
    ui.show_save_as_dialog(addr("gopher://example.org:70/0/docs/readme.txt"));
    assert_eq!(ui.dialogs().save_as, Some("readme.txt".to_string()));
    ui.show_save_as_dialog(addr("gopher://example.org:70/1/menu"));
    assert_eq!(ui.dialogs().save_as, Some("menu.txt".to_string()));
    ui.show_save_as_dialog(addr("gopher://example.org:70/9/a.zip"));
    assert_eq!(ui.dialogs().save_as, Some("a.zip".to_string()));
    ui.show_save_as_dialog(addr("gopher://example.org:70/9/a.tar.gz"));
    assert_eq!(ui.dialogs().save_as, Some("a.tar.gz".to_string()));
    ui.show_save_as_dialog(addr("gopher://example.org:70/0/notes."));
    assert_eq!(ui.dialogs().save_as, Some("notes.".to_string()));
}

#[test]
fn save_as_dialog_falls_back_to_download() {
    let mut ui = ready();
    ui.show_save_as_dialog(addr("gopher://example.org"));
    assert_eq!(ui.dialogs().save_as, Some("download.txt".to_string()));
    ui.show_save_as_dialog(addr("gopher://example.org/"));
    assert_eq!(ui.dialogs().save_as, Some("download.txt".to_string()));
    ui.show_save_as_dialog(addr("gopher://example.org/1/dir/"));
    assert_eq!(ui.dialogs().save_as, Some("download.txt".to_string()));
    assert_eq!(NcGopher::save_as_filename(&addr("mailto:someone@example.org")), "download.txt");
}

#[test]
fn save_as_submit_asks_the_backend() {
    let mut ui = ready();
    ui.show_save_as_dialog(addr("gopher://example.org:70/0/a"));
    ui.save_as_action("notes.txt");
    assert_eq!(ui.dialogs().save_as, None);
    assert_eq!(ui.take_requests(), vec![ControllerMessage::SavePageAs("notes.txt".to_string())]);
}

#[test]
fn save_as_submit_without_name_shows_a_notice() {
    let mut ui = ready();
    ui.show_save_as_dialog(addr("gopher://example.org:70/0/a"));
    ui.save_as_action("");
    assert_eq!(ui.dialogs().save_as, None);
    assert_eq!(ui.dialogs().info, Some("No filename given!".to_string()));
    assert!(ui.take_requests().is_empty());
}

#[test]
fn add_bookmark_dialog_sends_title_and_tags() {
    let a = addr("gopher://example.org:70/1/menu");
    let mut ui = ready();
    ui.post(UiMessage::ShowAddBookmarkDialog(a.clone()));
    assert!(ui.step());
    assert_eq!(ui.dialogs().add_bookmark, Some(a.clone()));
    ui.add_bookmark_action("Menu", "one,two");
    assert_eq!(ui.dialogs().add_bookmark, None);
    assert_eq!(
        ui.take_requests(),
        vec![ControllerMessage::AddBookmark(a, "Menu".to_string(), "one,two".to_string())]
    );
}

#[test]
fn add_bookmark_dialog_takes_empty_fields() {
    let a = addr("gopher://example.org:70/1/menu");
    let mut ui = ready();
    ui.show_add_bookmark_dialog(a.clone());
    ui.add_bookmark_action("", "");
    assert_eq!(
        ui.take_requests(),
        vec![ControllerMessage::AddBookmark(a, String::new(), String::new())]
    );
}

#[test]
fn add_bookmark_dialog_cancel_has_no_effect() {
    let mut ui = ready();
    ui.show_add_bookmark_dialog(addr("gopher://example.org:70/1/menu"));
    ui.close_dialog(DialogKind::AddBookmark);
    assert_eq!(*ui.dialogs(), Dialogs::new());
    ui.add_bookmark_action("late", "");
    assert!(ui.take_requests().is_empty());
}

#[test]
fn history_menu_holds_the_ten_newest() {
    let mut ui = ready();
    for n in 1..=11 {
        let url = addr(&format!("gopher://example.org:70/1/p{}", n));
        ui.post(UiMessage::AddToHistoryMenu(HistoryEntry::new(format!("P{}", n), url)));
    }
    assert!(ui.step());
    let expected: Vec<String> = (2..=11).rev().map(|n| format!("P{}", n)).collect();
    assert_eq!(history_labels(&ui), expected);
}

#[test]
fn clear_history_empties_the_menu() {
    for count in [0, 1, 10] {
        let mut ui = ready();
        for n in 0..count {
            let url = addr(&format!("gopher://example.org:70/1/p{}", n));
            ui.add_to_history_menu(HistoryEntry::new(format!("P{}", n), url));
        }
        assert_eq!(history_labels(&ui).len(), count);
        ui.post(UiMessage::ClearHistoryMenu);
        assert!(ui.step());
        assert!(history_labels(&ui).is_empty());
        assert_eq!(ui.menubar().trees()[1].items.len(), 3);
    }
}

#[test]
fn history_shortcut_opens_its_address() {
    let mut ui = ready();
    ui.add_to_history_menu(HistoryEntry::new(
        "Page".to_string(),
        addr("gopher://example.org:70/1/page"),
    ));
    ui.select_menu_item(1, 3);
    assert_eq!(ui.pending(), 1);
    assert!(ui.step());
    assert_eq!(
        ui.take_requests(),
        vec![ControllerMessage::FetchUrl(
            addr("gopher://example.org:70/1/page"),
            ContentType::Gophermap,
            String::new()
        )]
    );
}

#[test]
fn bookmark_shortcut_opens_its_address() {
    let mut ui = ready();
    ui.post(UiMessage::AddToBookmarkMenu(Bookmark::new(
        "Mark".to_string(),
        addr("gopher://example.org:70/1/mark"),
    )));
    assert!(ui.step());
    assert_eq!(
        ui.menubar().action_at(2, 3),
        Some(MenuAction::OpenUrl("gopher://example.org:70/1/mark".to_string()))
    );
    ui.select_menu_item(2, 3);
    assert!(ui.step());
    assert_eq!(ui.take_requests().len(), 1);
}

#[test]
fn menu_items_do_what_they_say() {
    let mut ui = ready();
    ui.select_menu_item(0, 0);
    assert!(ui.step());
    assert!(ui.dialogs().is_open(DialogKind::Url));
    ui.select_menu_item(0, 2);
    assert_eq!(ui.take_requests(), vec![ControllerMessage::RequestSaveAsDialog]);
    ui.select_menu_item(0, 3);
    assert_eq!(ui.dialogs().info, Some("Settings not implemented".to_string()));
    ui.select_menu_item(2, 1);
    assert_eq!(ui.take_requests(), vec![ControllerMessage::RequestAddBookmarkDialog]);
    ui.select_menu_item(0, 1);
    ui.select_menu_item(9, 9);
    assert_eq!(ui.pending(), 0);
    assert!(ui.is_running());
    ui.select_menu_item(0, 5);
    assert!(!ui.is_running());
}

#[test]
fn help_items_show_notices() {
    let mut ui = ready();
    ui.select_submenu_item(4, 0, 0);
    assert_eq!(ui.dialogs().info, Some("Help message!".to_string()));
    ui.select_submenu_item(4, 0, 7);
    assert_eq!(ui.dialogs().info, Some("Help message!".to_string()));
}

#[test]
fn search_menu_opens_the_search_dialog() {
    let mut ui = ready();
    ui.select_menu_item(3, 2);
    assert!(ui.step());
    assert_eq!(ui.dialogs().search, Some(addr("gopher://jan.bio:70/cgi-bin/gmdb.py")));
}

#[test]
fn perform_search_reports_an_address_that_is_refused() {
    let mut ui = ready();
    ui.perform(MenuAction::Search("not a url".to_string()));
    assert_eq!(ui.get_message(), "Invalid URL: relative URL without a base");
    assert_eq!(ui.pending(), 0);
    ui.search_parsed_url(Address::parse("gopher://example.org/7/s"));
    assert_eq!(ui.pending(), 1);
}

#[test]
fn clearing_the_history_is_asked_for_first() {
    let mut ui = ready();
    ui.select_menu_item(1, 1);
    assert!(ui.dialogs().is_open(DialogKind::ClearHistory));
    assert!(ui.take_requests().is_empty());
    ui.clear_history_action();
    assert!(!ui.dialogs().is_open(DialogKind::ClearHistory));
    assert_eq!(ui.take_requests(), vec![ControllerMessage::ClearHistory]);
    ui.clear_history_action();
    assert!(ui.take_requests().is_empty());
    ui.select_menu_item(1, 1);
    ui.close_dialog(DialogKind::ClearHistory);
    assert!(ui.take_requests().is_empty());
}

#[test]
fn keys_are_bound() {
    let mut ui = ready();
    assert_eq!(ui.on_key(Key::Char('b')), KeyAction::Nothing);
    assert_eq!(ui.on_key(Key::Char('s')), KeyAction::Nothing);
    assert_eq!(
        ui.take_requests(),
        vec![ControllerMessage::NavigateBack, ControllerMessage::RequestSaveAsDialog]
    );
    assert_eq!(ui.on_key(Key::Char('g')), KeyAction::Nothing);
    assert_eq!(ui.pending(), 1);
    assert_eq!(ui.on_key(Key::Esc), KeyAction::SelectMenubar);
    assert_eq!(ui.on_key(Key::Char('~')), KeyAction::ToggleDebugConsole);
    assert_eq!(ui.on_key(Key::Char('x')), KeyAction::Nothing);
    assert_eq!(ui.pending(), 1);
    assert!(ui.take_requests().is_empty());
    assert!(ui.is_running());
    assert_eq!(ui.on_key(Key::Char('q')), KeyAction::Quit);
    assert!(!ui.is_running());
    assert!(!ui.step());
}

#[test]
fn choosing_a_row_goes_by_its_kind() {
    let payload = "1Dir\t/d\texample.org\t70\n0File\t/f\texample.org\t70\n9Bin\t/b\texample.org\t70\n\
                   gGif\t/g\texample.org\t70\nIImg\t/i\texample.org\t70\n4Hqx\t/h\texample.org\t70\n\
                   5Dos\t/e\texample.org\t70\n7Find\t/s\texample.org\t70\niInfo\t\texample.org\t70\n\
                   hWeb\t/w\texample.org\t70\n8Tel\t/t\texample.org\t70\n6Uu\t/u\texample.org\t70\nplain\n";
    let mut ui = ready();
    ui.show_gophermap(payload.to_string());
    assert_eq!(ui.content().len(), 13);
    let at = |s: &str| addr(&format!("gopher://example.org:70/{}", s));
    let expected = vec![
        Some(UiMessage::OpenUrl(at("1/d"), ContentType::Gophermap)),
        Some(UiMessage::OpenUrl(at("0/f"), ContentType::Text)),
        Some(UiMessage::OpenUrl(at("9/b"), ContentType::Binary)),
        Some(UiMessage::OpenUrl(at("g/g"), ContentType::Binary)),
        Some(UiMessage::OpenUrl(at("I/i"), ContentType::Binary)),
        Some(UiMessage::OpenUrl(at("4/h"), ContentType::Binary)),
        Some(UiMessage::OpenUrl(at("5/e"), ContentType::Binary)),
        Some(UiMessage::OpenQueryDialog(at("7/s"))),
        None,
        None,
        None,
        None,
        None,
    ];
    for (i, want) in expected.iter().enumerate() {
        assert_eq!(NcGopher::selection(&ui.content()[i].entry), *want, "row {}", i);
        let before = ui.pending();
        ui.select_entry(i);
        assert_eq!(ui.pending(), before + usize::from(want.is_some()), "row {}", i);
    }
    ui.select_entry(13);
    ui.select_entry(usize::MAX);
    assert_eq!(ui.pending(), 8);
}

#[test]
fn entry_without_address_asks_for_nothing() {
    let e = GopherMapEntry { item_type: ItemType::Dir, name: "x".to_string(), url: None };
    assert_eq!(NcGopher::selection(&e), None);
}

#[test]
fn choosing_a_directory_fetches_a_listing() {
    let mut ui = ready();
    ui.show_gophermap("1Dir\t/d\texample.org\t70\n".to_string());
    ui.select_entry(0);
    assert!(ui.step());
    assert_eq!(
        ui.take_requests(),
        vec![ControllerMessage::FetchUrl(
            addr("gopher://example.org:70/1/d"),
            ContentType::Gophermap,
            String::new()
        )]
    );
}

#[test]
fn choosing_a_search_server_asks_for_the_query() {
    let mut ui = ready();
    ui.show_gophermap("7Find\t/s\texample.org\t70\n".to_string());
    ui.select_entry(0);
    assert!(ui.step());
    assert_eq!(ui.dialogs().query, Some(addr("gopher://example.org:70/7/s")));
    assert!(ui.take_requests().is_empty());
}

#[test]
fn download_goes_to_the_download_directory() {
    let mut ui = ready();
    ui.set_download_dir(Some("/home/alice".to_string()));
    let a = addr("gopher://example.org:70/9/files/a.bin");
    ui.post(UiMessage::OpenUrl(a.clone(), ContentType::Binary));
    assert!(ui.step());
    assert_eq!(
        ui.take_requests(),
        vec![ControllerMessage::FetchBinaryUrl(a, "/home/alice/a.bin".to_string())]
    );
    assert_eq!(ui.get_message(), "");
}

#[test]
fn download_without_directory_is_reported() {
    let mut ui = ready();
    ui.open_url(addr("gopher://example.org:70/9/a.bin"), ContentType::Binary);
    assert_eq!(ui.get_message(), "Could not find download dir");
    assert!(ui.take_requests().is_empty());
}

#[test]
fn open_url_of_other_kinds_fetches() {
    let mut ui = ready();
    let a = addr("gopher://example.org:70/0/a.txt");
    ui.open_url(a.clone(), ContentType::Text);
    assert_eq!(
        ui.take_requests(),
        vec![ControllerMessage::FetchUrl(a, ContentType::Text, String::new())]
    );
}

#[test]
fn download_names() {
    assert_eq!(NcGopher::get_filename_from_url(&addr("gopher://example.org/9/files/a.bin")), "a.bin");
    assert_eq!(NcGopher::get_filename_from_url(&addr("gopher://example.org")), "download.bin");
    assert_eq!(NcGopher::get_filename_from_url(&addr("gopher://example.org/")), "");
}

#[test]
fn locate_download_dir_changes_nothing_else() {
    let mut ui = ready();
    ui.set_message("kept");
    ui.locate_download_dir();
    assert_eq!(ui.get_message(), "kept");
    assert_eq!(ui.pending(), 0);
    assert_eq!(ui.menubar().trees().len(), 5);
}

#[test]
fn finished_download_is_reported() {
    let mut ui = ready();
    ui.post(UiMessage::BinaryWritten("a.bin".to_string(), 1024));
    assert!(ui.step());
    assert_eq!(ui.get_message(), "File downloaded: a.bin (1024 bytes)");
}

#[test]
fn saved_page_is_reported() {
    let mut ui = ready();
    ui.post(UiMessage::PageSaved(
        addr("gopher://example.org:70/0/a"),
        ContentType::Text,
        "a.txt".to_string(),
    ));
    assert!(ui.step());
    assert_eq!(ui.get_message(), "Page saved as 'a.txt'.");
}

#[test]
fn query_asks_the_backend() {
    let a = addr("gopher://example.org:70/7/s");
    let mut ui = ready();
    ui.post(UiMessage::OpenQueryUrl(a.clone(), "term".to_string()));
    assert!(ui.step());
    assert_eq!(
        ui.take_requests(),
        vec![ControllerMessage::FetchUrl(a, ContentType::Gophermap, "term".to_string())]
    );
}

#[test]
fn requests_leave_in_order() {
    let mut ui = ready();
    ui.on_key(Key::Char('b'));
    ui.open_gopher_address(addr("gopher://example.org:70/1/a"), ContentType::Gophermap);
    ui.on_key(Key::Char('s'));
    let out = ui.take_requests();
    assert_eq!(out.len(), 3);
    assert_eq!(out[0], ControllerMessage::NavigateBack);
    assert_eq!(out[2], ControllerMessage::RequestSaveAsDialog);
}

#[test]
fn set_title_and_view() {
    let mut l = ncgopher::layout::Layout::new();
    l.set_title(Pane::Text, "notes".to_string());
    l.set_view(Pane::Text);
    assert_eq!(l.active(), Pane::Text);
    assert_eq!(l.title(Pane::Text), "notes");
    assert_eq!(l.title(Pane::Content), "Gophermap");
    l.set_view(Pane::Content);
    assert_eq!(l.title(Pane::Text), "notes");
}

#[test]
fn dialogs_close_one_kind_only() {
    let mut d = Dialogs::new();
    d.url = true;
    d.info = Some("note".to_string());
    d.clear_history = true;
    d.close(DialogKind::Info);
    assert!(d.is_open(DialogKind::Url));
    assert!(d.is_open(DialogKind::ClearHistory));
    assert!(!d.is_open(DialogKind::Info));
    for kind in [
        DialogKind::Url,
        DialogKind::Query,
        DialogKind::Search,
        DialogKind::SaveAs,
        DialogKind::AddBookmark,
        DialogKind::ClearHistory,
        DialogKind::Info,
    ] {
        d.close(kind);
        assert!(!d.is_open(kind));
    }
    assert_eq!(d, Dialogs::new());
}
