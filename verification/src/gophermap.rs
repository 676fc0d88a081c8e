//! Directory listings: the line format, the kinds of entry, and how a
//! payload becomes the rows of the listing pane.
//!
//! A payload is split into lines. A line that is a lone full stop ends the
//! listing on the wire and is skipped wherever it stands. The first of the
//! lines that are left, if it begins with a slash, is taken as the listing's
//! title and is not shown as a row. Every other line
//! gives one row, in order.

use crate::address::{parsed_url, Address, AddressView};
use crate::text::{
    joined, lines, push_char, same_text, split, split_chars, split_lines, string_from, to_chars,
};
use vstd::prelude::*;

verus! {

/// The kind of an entry, as the first character of its line gives it.
#[derive(Clone, Copy, Debug, PartialEq, Eq, Structural)]
pub enum ItemType {
    /// `0`: a text file.
    File,
    /// `1`: a directory.
    Dir,
    /// `2`: a CSO phone-book server.
    CsoServer,
    /// `3`: an error.
    Error,
    /// `4`: a BinHex file.
    BinHex,
    /// `5`: a DOS binary.
    Dos,
    /// `6`: a uuencoded file.
    Uuencoded,
    /// `7`: a search server.
    IndexServer,
    /// `8`: a telnet session.
    Telnet,
    /// `9`: a binary file.
    Binary,
    /// `+`: a redundant server.
    RedundantServer,
    /// `T`: a tn3270 session.
    Tn3270,
    /// `g`: a GIF image.
    Gif,
    /// `I`: an image of another format.
    Image,
    /// `h`: an HTML link.
    Html,
    /// `i`: a line of information.
    Inline,
    /// Any other character, and any line that does not have the four fields.
    Unknown,
}

/// How a row is set off: entries that open in place are italic, entries that
/// are downloaded are bold, the rest is plain.
#[derive(Clone, Copy, Debug, PartialEq, Eq, Structural)]
pub enum Emphasis {
    Plain,
    Italic,
    Bold,
}

/// The kind that a type character stands for.
pub open spec fn item_type_of(code: char) -> ItemType {
    if code == '0' {
        ItemType::File
    } else if code == '1' {
        ItemType::Dir
    } else if code == '2' {
        ItemType::CsoServer
    } else if code == '3' {
        ItemType::Error
    } else if code == '4' {
        ItemType::BinHex
    } else if code == '5' {
        ItemType::Dos
    } else if code == '6' {
        ItemType::Uuencoded
    } else if code == '7' {
        ItemType::IndexServer
    } else if code == '8' {
        ItemType::Telnet
    } else if code == '9' {
        ItemType::Binary
    } else if code == '+' {
        ItemType::RedundantServer
    } else if code == 'T' {
        ItemType::Tn3270
    } else if code == 'g' {
        ItemType::Gif
    } else if code == 'I' {
        ItemType::Image
    } else if code == 'h' {
        ItemType::Html
    } else if code == 'i' {
        ItemType::Inline
    } else {
        ItemType::Unknown
    }
}

/// The seven characters that a row of this kind begins with.
pub open spec fn tag(item_type: ItemType) -> Seq<char> {
    match item_type {
        ItemType::Dir => "[MAP]  "@,
        ItemType::File => "[FILE] "@,
        ItemType::Binary => "[BIN]  "@,
        ItemType::Gif => "[GIF]  "@,
        ItemType::Html => "[WWW]  "@,
        ItemType::IndexServer => "[QRY]  "@,
        ItemType::Telnet => "[TEL]  "@,
        ItemType::Image => "[IMG]  "@,
        _ => "       "@,
    }
}

/// The emphasis of a row of this kind.
pub open spec fn emphasis_of(item_type: ItemType) -> Emphasis {
    match item_type {
        ItemType::Dir | ItemType::File | ItemType::Html | ItemType::IndexServer | ItemType::Telnet => Emphasis::Italic,
        ItemType::Binary | ItemType::Gif | ItemType::Image => Emphasis::Bold,
        _ => Emphasis::Plain,
    }
}

impl ItemType {
    /// The kind that a type character stands for.
    pub fn decode(code: char) -> (r: ItemType)
        ensures
            r == item_type_of(code),
    {
        if code == '0' {
            ItemType::File
        } else if code == '1' {
            ItemType::Dir
        } else if code == '2' {
            ItemType::CsoServer
        } else if code == '3' {
            ItemType::Error
        } else if code == '4' {
            ItemType::BinHex
        } else if code == '5' {
            ItemType::Dos
        } else if code == '6' {
            ItemType::Uuencoded
        } else if code == '7' {
            ItemType::IndexServer
        } else if code == '8' {
            ItemType::Telnet
        } else if code == '9' {
            ItemType::Binary
        } else if code == '+' {
            ItemType::RedundantServer
        } else if code == 'T' {
            ItemType::Tn3270
        } else if code == 'g' {
            ItemType::Gif
        } else if code == 'I' {
            ItemType::Image
        } else if code == 'h' {
            ItemType::Html
        } else if code == 'i' {
            ItemType::Inline
        } else {
            ItemType::Unknown
        }
    }

    /// The seven characters that a row of this kind begins with.
    pub fn tag(self) -> (r: &'static str)
        ensures
            r@ == tag(self),
    {
        match self {
            ItemType::Dir => "[MAP]  ",
            ItemType::File => "[FILE] ",
            ItemType::Binary => "[BIN]  ",
            ItemType::Gif => "[GIF]  ",
            ItemType::Html => "[WWW]  ",
            ItemType::IndexServer => "[QRY]  ",
            ItemType::Telnet => "[TEL]  ",
            ItemType::Image => "[IMG]  ",
            _ => "       ",
        }
    }

    /// The emphasis of a row of this kind.
    pub fn emphasis(self) -> (r: Emphasis)
        ensures
            r == emphasis_of(self),
    {
        match self {
            ItemType::Dir | ItemType::File | ItemType::Html | ItemType::IndexServer | ItemType::Telnet => Emphasis::Italic,
            ItemType::Binary | ItemType::Gif | ItemType::Image => Emphasis::Bold,
            _ => Emphasis::Plain,
        }
    }
}

/// The fields of a well-formed line.
#[derive(Debug, PartialEq, Eq)]
pub struct LineFields {
    pub code: char,
    pub name: String,
    pub selector: String,
    pub host: String,
    pub port: String,
}

/// What a `LineFields` stands for.
#[verifier::ext_equal]
pub struct LineFieldsView {
    pub code: char,
    pub name: Seq<char>,
    pub selector: Seq<char>,
    pub host: Seq<char>,
    pub port: Seq<char>,
}

impl View for LineFields {
    type V = LineFieldsView;

    open spec fn view(&self) -> LineFieldsView {
        LineFieldsView {
            code: self.code,
            name: self.name@,
            selector: self.selector@,
            host: self.host@,
            port: self.port@,
        }
    }
}

impl DeepView for LineFields {
    type V = LineFieldsView;

    open spec fn deep_view(&self) -> LineFieldsView {
        self@
    }
}

impl LineFieldsView {
    /// The text of the address that the fields name:
    /// `gopher://host:port/` followed by the type character and the selector.
    pub open spec fn address_text(self) -> Seq<char> {
        "gopher://"@ + self.host + ":"@ + self.port + "/"@ + seq![self.code] + self.selector
    }
}

/// The fields of `line`. A line has them if tabs part it into four pieces or
/// more and the first piece is not empty. The first character of the first
/// piece is the type character, the rest of it the name. The next three
/// pieces are selector, host and port; further pieces are not looked at.
pub open spec fn line_fields(line: Seq<char>) -> Option<LineFieldsView> {
    let pieces = split(line, '\t');
    if pieces.len() >= 4 && pieces[0].len() > 0 {
        Some(
            LineFieldsView {
                code: pieces[0][0],
                name: pieces[0].skip(1),
                selector: pieces[1],
                host: pieces[2],
                port: pieces[3],
            },
        )
    } else {
        None
    }
}

impl LineFields {
    /// The fields of `line`, if it has them.
    pub fn decode(line: &str) -> (r: Option<LineFields>)
        ensures
            r.deep_view() == line_fields(line@),
    {
        let chars = to_chars(line);
        let pieces = split_chars(&chars, '\t');
        if pieces.len() < 4 {
            return None;
        }
        let first = to_chars(pieces[0].as_str());
        if first.len() == 0 {
            return None;
        }
        let name = string_from(&first, 1, first.len());
        let selector = pieces[1].clone();
        let host = pieces[2].clone();
        let port = pieces[3].clone();
        Some(LineFields { code: first[0], name, selector, host, port })
    }

    /// The text of the address that the fields name.
    pub fn address_text(&self) -> (s: String)
        ensures
            s@ == self@.address_text(),
    {
        let mut s = joined("gopher://", self.host.as_str());
        s.append(":");
        s.append(self.port.as_str());
        s.append("/");
        push_char(&mut s, self.code);
        s.append(self.selector.as_str());
        s
    }
}

/// One entry of a listing.
#[derive(Debug, PartialEq, Eq)]
pub struct GopherMapEntry {
    pub item_type: ItemType,
    pub name: String,
    pub url: Option<Address>,
}

/// What a `GopherMapEntry` stands for.
#[verifier::ext_equal]
pub struct GopherMapEntryView {
    pub item_type: ItemType,
    pub name: Seq<char>,
    pub url: Option<AddressView>,
}

impl View for GopherMapEntry {
    type V = GopherMapEntryView;

    open spec fn view(&self) -> GopherMapEntryView {
        GopherMapEntryView {
            item_type: self.item_type,
            name: self.name@,
            url: self.url.deep_view(),
        }
    }
}

impl DeepView for GopherMapEntry {
    type V = GopherMapEntryView;

    open spec fn deep_view(&self) -> GopherMapEntryView {
        self@
    }
}

/// The entry that a line without the four fields gives: of unknown kind,
/// named by the whole line, without an address.
pub open spec fn unknown_entry(line: Seq<char>) -> GopherMapEntryView {
    GopherMapEntryView { item_type: ItemType::Unknown, name: line, url: None }
}

/// The entry that fields and the outcome of parsing their address give. An
/// address that the parser refuses leaves the entry without one.
pub open spec fn entry_of_fields(
    fields: LineFieldsView,
    parsed: Result<AddressView, Seq<char>>,
) -> GopherMapEntryView {
    GopherMapEntryView {
        item_type: item_type_of(fields.code),
        name: fields.name,
        url: match parsed {
            Ok(a) => Some(a),
            Err(_) => None,
        },
    }
}

/// The entry that `line` gives.
pub open spec fn entry_of_line(line: Seq<char>) -> GopherMapEntryView {
    match line_fields(line) {
        Some(fields) => entry_of_fields(fields, parsed_url(fields.address_text())),
        None => unknown_entry(line),
    }
}

impl Clone for GopherMapEntry {
    fn clone(&self) -> (r: Self)
        ensures
            r@ == self@,
    {
        GopherMapEntry {
            item_type: self.item_type,
            name: self.name.clone(),
            url: match &self.url {
                Some(a) => Some(a.clone()),
                None => None,
            },
        }
    }
}

impl GopherMapEntry {
    /// The entry for a line without the four fields.
    pub fn unknown(line: String) -> (r: GopherMapEntry)
        ensures
            r@ == unknown_entry(line@),
    {
        GopherMapEntry { item_type: ItemType::Unknown, name: line, url: None }
    }

    /// The entry for `fields`, given what parsing their address came to.
    pub fn from_fields(fields: LineFields, url: Option<Address>) -> (r: GopherMapEntry)
        ensures
            r@ == (GopherMapEntryView {
                item_type: item_type_of(fields.code),
                name: fields.name@,
                url: url.deep_view(),
            }),
    {
        GopherMapEntry { item_type: ItemType::decode(fields.code), name: fields.name, url }
    }

    /// The entry that `line` gives. Every line gives one.
    pub fn parse(line: String) -> (r: GopherMapEntry)
        ensures
            r@ == entry_of_line(line@),
            split(line@, '\t').len() < 4 ==> r@ == unknown_entry(line@),
    {
        match LineFields::decode(line.as_str()) {
            Some(fields) => {
                let text = fields.address_text();
                let url = match Address::parse(text.as_str()) {
                    Ok(a) => Some(a),
                    Err(_) => None,
                };
                GopherMapEntry::from_fields(fields, url)
            },
            None => GopherMapEntry::unknown(line),
        }
    }

    /// The name to show.
    pub fn label(&self) -> (s: &str)
        ensures
            s@ == self@.name,
    {
        self.name.as_str()
    }
}

/// A row of the listing pane: what is shown, how, and the entry behind it.
#[derive(Debug, PartialEq, Eq)]
pub struct ListingItem {
    pub label: String,
    pub emphasis: Emphasis,
    pub entry: GopherMapEntry,
}

/// What a `ListingItem` stands for.
#[verifier::ext_equal]
pub struct ListingItemView {
    pub label: Seq<char>,
    pub emphasis: Emphasis,
    pub entry: GopherMapEntryView,
}

impl View for ListingItem {
    type V = ListingItemView;

    open spec fn view(&self) -> ListingItemView {
        ListingItemView { label: self.label@, emphasis: self.emphasis, entry: self.entry@ }
    }
}

impl DeepView for ListingItem {
    type V = ListingItemView;

    open spec fn deep_view(&self) -> ListingItemView {
        self@
    }
}

/// The row for an entry: the tag of its kind, then its name.
pub open spec fn item_of(entry: GopherMapEntryView) -> ListingItemView {
    ListingItemView {
        label: tag(entry.item_type) + entry.name,
        emphasis: emphasis_of(entry.item_type),
        entry,
    }
}

impl ListingItem {
    /// The row for `entry`.
    pub fn new(entry: GopherMapEntry) -> (r: ListingItem)
        ensures
            r@ == item_of(entry@),
    {
        ListingItem {
            label: joined(entry.item_type.tag(), entry.name.as_str()),
            emphasis: entry.item_type.emphasis(),
            entry,
        }
    }
}

/// A classified payload: the title and the rows.
#[derive(Debug, PartialEq, Eq)]
pub struct Listing {
    pub title: String,
    pub items: Vec<ListingItem>,
}

/// What a `Listing` stands for.
#[verifier::ext_equal]
pub struct ListingView {
    pub title: Seq<char>,
    pub items: Seq<ListingItemView>,
}

impl View for Listing {
    type V = ListingView;

    open spec fn view(&self) -> ListingView {
        ListingView { title: self.title@, items: self.items.deep_view() }
    }
}

/// A line that is not the lone full stop.
pub open spec fn is_kept(line: Seq<char>) -> bool {
    line != "."@
}

/// The lines of a payload without the lone full stops.
pub open spec fn kept_lines(payload: Seq<char>) -> Seq<Seq<char>> {
    lines(payload).filter(|line: Seq<char>| is_kept(line))
}

/// Whether the first kept line of the payload is a title: it begins with a slash.
pub open spec fn has_title(payload: Seq<char>) -> bool {
    let kept = kept_lines(payload);
    kept.len() > 0 && kept[0].len() > 0 && kept[0][0] == '/'
}

/// The title of a payload; empty where it has none.
pub open spec fn listing_title(payload: Seq<char>) -> Seq<char> {
    if has_title(payload) {
        kept_lines(payload)[0]
    } else {
        Seq::empty()
    }
}

/// The lines of a payload that give rows: the kept lines, without the title
/// line where there is one.
pub open spec fn entry_lines(payload: Seq<char>) -> Seq<Seq<char>> {
    if has_title(payload) {
        kept_lines(payload).skip(1)
    } else {
        kept_lines(payload)
    }
}

/// What a payload is classified as.
pub open spec fn listing_of(payload: Seq<char>) -> ListingView {
    ListingView {
        title: listing_title(payload),
        items: entry_lines(payload).map_values(|line: Seq<char>| item_of(entry_of_line(line))),
    }
}

/// The filter over one more line keeps that line exactly if it is no lone full stop.
proof fn lemma_kept_step(all: Seq<Seq<char>>, i: int)
    requires
        0 <= i < all.len(),
    ensures
        all.take(i + 1).filter(|line: Seq<char>| is_kept(line)) == if is_kept(all[i]) {
            all.take(i).filter(|line: Seq<char>| is_kept(line)).push(all[i])
        } else {
            all.take(i).filter(|line: Seq<char>| is_kept(line))
        },
{
    reveal(Seq::filter);
    assert(all.take(i + 1).drop_last() =~= all.take(i));
}

/// The lines of `payload` that are no lone full stop, in order.
fn keep_lines(payload: &str) -> (kept: Vec<String>)
    ensures
        kept.deep_view() == kept_lines(payload@),
{
    let chars = to_chars(payload);
    let all = split_lines(&chars);
    let ghost all_view = all.deep_view();
    let mut kept: Vec<String> = Vec::new();
    let n: usize = all.len();
    let mut i: usize = 0;
    while i < n
        invariant
            i <= n,
            n == all.len(),
            all.deep_view() == all_view,
            kept.deep_view() == all_view.take(i as int).filter(|line: Seq<char>| is_kept(line)),
        decreases n - i,
    {
        proof {
            lemma_kept_step(all_view, i as int);
        }
        let line = all[i].clone();
        if !same_text(line.as_str(), ".") {
            kept.push(line);
        }
        i += 1;
    }
    assert(all_view.take(n as int) =~= all_view);
    kept
}

impl Listing {
    /// Classifies a payload. There are as many rows as the payload has lines
    /// that give rows, and row `i` is made from line `i` of them.
    pub fn classify(payload: &str) -> (r: Listing)
        ensures
            r@ == listing_of(payload@),
            r@.items.len() == entry_lines(payload@).len(),
            forall|i: int|
                0 <= i < r@.items.len() ==> #[trigger] r@.items[i] == item_of(
                    entry_of_line(entry_lines(payload@)[i]),
                ),
    {
        let kept = keep_lines(payload);
        let n: usize = kept.len();
        let mut title = String::new();
        let mut start: usize = 0;
        if n > 0 {
            let first = to_chars(kept[0].as_str());
            if first.len() > 0 && first[0] == '/' {
                title = kept[0].clone();
                start = 1;
            }
        }
        let mut items: Vec<ListingItem> = Vec::new();
        let mut i: usize = start;
        while i < n
            invariant
                start <= i <= n,
                n == kept.len(),
                kept.deep_view().skip(start as int) == entry_lines(payload@),
                items.deep_view() == entry_lines(payload@).take(i - start).map_values(
                    |line: Seq<char>| item_of(entry_of_line(line)),
                ),
            decreases n - i,
        {
            let ghost before = items.deep_view();
            let line = kept[i].clone();
            let item = ListingItem::new(GopherMapEntry::parse(line));
            items.push(item);
            assert(before.push(item@) =~= entry_lines(payload@).take(i + 1 - start).map_values(
                |line: Seq<char>| item_of(entry_of_line(line)),
            ));
            i += 1;
        }
        Listing { title, items }
    }
}

/// Classifying is a function of the payload: two listings that both are
/// what one payload is classified as are equal, row by row.
pub proof fn lemma_classify_twice(payload: Seq<char>, first: ListingView, second: ListingView)
    requires
        first == listing_of(payload),
        second == listing_of(payload),
    ensures
        first == second,
        first.items.len() == entry_lines(payload).len(),
{
}

} // verus!
