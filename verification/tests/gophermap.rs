use ncgopher::address::Address;
use ncgopher::gophermap::{Emphasis, GopherMapEntry, ItemType, LineFields, Listing, ListingItem};

#[test]
fn directory_line_gives_directory_entry() {
    let e = GopherMapEntry::parse("1My Menu\t/menu\texample.org\t70".to_string());
    assert_eq!(e.item_type, ItemType::Dir);
    assert_eq!(e.label(), "My Menu");
    assert_eq!(e.url.as_ref().unwrap().as_str(), "gopher://example.org:70/1/menu");
}

#[test]
fn line_with_fewer_than_four_fields_is_unknown() {
    for line in ["", "iHello", "1My Menu\t/menu", "1My Menu\t/menu\texample.org", "\t\t"] {
        let e = GopherMapEntry::parse(line.to_string());
        assert_eq!(e.item_type, ItemType::Unknown, "for {:?}", line);
        assert_eq!(e.label(), line);
        assert_eq!(e.url, None);
    }
}

#[test]
fn line_without_type_character_is_unknown() {
    let line = "\t/menu\texample.org\t70";
    let e = GopherMapEntry::parse(line.to_string());
    assert_eq!(e, GopherMapEntry::unknown(line.to_string()));
    assert_eq!(e.label(), line);
}

#[test]
fn fields_beyond_the_fourth_are_not_looked_at() {
    let e = GopherMapEntry::parse("0Notes\t/notes.txt\texample.org\t70\t+".to_string());
    assert_eq!(e.item_type, ItemType::File);
    assert_eq!(e.label(), "Notes");
    assert_eq!(e.url.as_ref().unwrap().as_str(), "gopher://example.org:70/0/notes.txt");
}

#[test]
fn line_with_an_address_that_is_refused_keeps_kind_and_name() {
    let e = GopherMapEntry::parse("iWelcome\t\t\t0".to_string());
    assert_eq!(e.item_type, ItemType::Inline);
    assert_eq!(e.label(), "Welcome");
    assert_eq!(e.url, None);
    let f = GopherMapEntry::parse("1Broken\t/x\texample.org\tseventy".to_string());
    assert_eq!(f.item_type, ItemType::Dir);
    assert_eq!(f.label(), "Broken");
    assert_eq!(f.url, None);
}

#[test]
fn decode_line_fields() {
    let f = LineFields::decode("7Search\t/v2/vs\tgopher.floodgap.com\t70").unwrap();
    assert_eq!(f.code, '7');
    assert_eq!(f.name, "Search");
    assert_eq!(f.selector, "/v2/vs");
    assert_eq!(f.host, "gopher.floodgap.com");
    assert_eq!(f.port, "70");
    assert_eq!(f.address_text(), "gopher://gopher.floodgap.com:70/7/v2/vs");
    assert_eq!(LineFields::decode("7Search\t/v2/vs\tgopher.floodgap.com"), None);
    assert_eq!(LineFields::decode("\ta\tb\tc"), None);
}

#[test]
fn entry_from_fields_takes_the_address_as_given() {
    let f = LineFields::decode("9Archive\t/a.zip\texample.org\t70").unwrap();
    let a = Address::parse("gopher://elsewhere.example/9/other").unwrap();
    let e = GopherMapEntry::from_fields(f, Some(a.clone()));
    assert_eq!(e.item_type, ItemType::Binary);
    assert_eq!(e.name, "Archive");
    assert_eq!(e.url, Some(a));
}

#[test]
fn type_characters() {
    let table = [
        ('0', ItemType::File),
        ('1', ItemType::Dir),
        ('2', ItemType::CsoServer),
        ('3', ItemType::Error),
        ('4', ItemType::BinHex),
        ('5', ItemType::Dos),
        ('6', ItemType::Uuencoded),
        ('7', ItemType::IndexServer),
        ('8', ItemType::Telnet),
        ('9', ItemType::Binary),
        ('+', ItemType::RedundantServer),
        ('T', ItemType::Tn3270),
        ('g', ItemType::Gif),
        ('I', ItemType::Image),
        ('h', ItemType::Html),
        ('i', ItemType::Inline),
        ('x', ItemType::Unknown),
        (' ', ItemType::Unknown),
        ('G', ItemType::Unknown),
    ];
    for (c, t) in table {
        assert_eq!(ItemType::decode(c), t, "for {:?}", c);
    }
}

#[test]
fn tags_and_emphasis() {
    let table = [
        (ItemType::Dir, "[MAP]  ", Emphasis::Italic),
        (ItemType::File, "[FILE] ", Emphasis::Italic),
        (ItemType::Binary, "[BIN]  ", Emphasis::Bold),
        (ItemType::Gif, "[GIF]  ", Emphasis::Bold),
        (ItemType::Html, "[WWW]  ", Emphasis::Italic),
        (ItemType::IndexServer, "[QRY]  ", Emphasis::Italic),
        (ItemType::Telnet, "[TEL]  ", Emphasis::Italic),
        (ItemType::Image, "[IMG]  ", Emphasis::Bold),
        (ItemType::Inline, "       ", Emphasis::Plain),
        (ItemType::Unknown, "       ", Emphasis::Plain),
        (ItemType::Error, "       ", Emphasis::Plain),
        (ItemType::BinHex, "       ", Emphasis::Plain),
    ];
    for (t, tag, emphasis) in table {
        assert_eq!(t.tag(), tag);
        assert_eq!(t.tag().chars().count(), 7);
        assert_eq!(t.emphasis(), emphasis);
    }
}

#[test]
fn row_is_tag_then_name() {
    let e = GopherMapEntry::parse("1My Menu\t/menu\texample.org\t70".to_string());
    let row = ListingItem::new(e.clone());
    assert_eq!(row.label, "[MAP]  My Menu");
    assert_eq!(row.emphasis, Emphasis::Italic);
    assert_eq!(row.entry, e);
    let info = ListingItem::new(GopherMapEntry::unknown("just text".to_string()));
    assert_eq!(info.label, "       just text");
    assert_eq!(info.emphasis, Emphasis::Plain);
}

#[test]
fn listing_has_one_row_for_each_line_that_is_no_full_stop() {
    let payload = "1First\t/a\texample.org\t70\r\n0Second\t/b\texample.org\t70\r\niThird\r\n.\r\n";
    let l = Listing::classify(payload);
    assert_eq!(l.title, "");
    assert_eq!(l.items.len(), 3);
    assert_eq!(l.items[0].label, "[MAP]  First");
    assert_eq!(l.items[1].label, "[FILE] Second");
    assert_eq!(l.items[2].label, "       iThird");
    assert_eq!(l.items[2].entry.item_type, ItemType::Unknown);
}

#[test]
fn full_stop_lines_are_skipped_wherever_they_stand() {
    let l = Listing::classify(".\n1A\t/a\texample.org\t70\n.\n1B\t/b\texample.org\t70\n.");
    assert_eq!(l.title, "");
    assert_eq!(l.items.len(), 2);
    assert_eq!(l.items[0].entry.name, "A");
    assert_eq!(l.items[1].entry.name, "B");
}

#[test]
fn first_line_with_a_slash_is_the_title_and_no_row() {
    let l = Listing::classify("/pub/files\n1A\t/a\texample.org\t70\n/not/a/title\n");
    assert_eq!(l.title, "/pub/files");
    assert_eq!(l.items.len(), 2);
    assert_eq!(l.items[0].entry.name, "A");
    assert_eq!(l.items[1].entry.name, "/not/a/title");
    assert_eq!(l.items[1].entry.item_type, ItemType::Unknown);
}

#[test]
fn title_is_looked_for_behind_leading_full_stops() {
    let l = Listing::classify(".\n/pub\n1A\t/a\texample.org\t70\n");
    assert_eq!(l.title, "/pub");
    assert_eq!(l.items.len(), 1);
}

#[test]
fn empty_payload_gives_empty_listing() {
    let l = Listing::classify("");
    assert_eq!(l.title, "");
    assert!(l.items.is_empty());
    let m = Listing::classify(".\r\n");
    assert!(m.items.is_empty());
}

#[test]
fn classifying_twice_gives_the_same_listing() {
    let payload = "/top\n1A\t/a\texample.org\t70\n0B\t/b\texample.org\t70\nplain\n.\n";
    assert_eq!(Listing::classify(payload), Listing::classify(payload));
    assert_eq!(Listing::classify(payload).items.len(), 3);
}
