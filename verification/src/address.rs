//! Resource addresses. An address is a URL; what makes a text a URL, and how
//! a URL is written down, is decided by the `url` crate.

use crate::text::{has_prefix, starts_with_at, to_chars};
use url::Url;
use vstd::prelude::*;

verus! {

/// A resource address: a URL as the parser serialises it, together with the
/// segments of its path. A URL that cannot be a base, and one whose path is
/// empty, has no segments.
#[derive(Debug, PartialEq, Eq)]
pub struct Address {
    text: String,
    segments: Option<Vec<String>>,
}

/// What an `Address` stands for.
#[verifier::ext_equal]
pub struct AddressView {
    pub text: Seq<char>,
    pub segments: Option<Seq<Seq<char>>>,
}

/// Why a text is no address: the parser's own words.
#[derive(Debug, PartialEq, Eq)]
pub struct AddressError {
    message: String,
}

/// Whether `c` is a letter of the Latin alphabet.
pub open spec fn is_letter(c: char) -> bool {
    ('a' <= c && c <= 'z') || ('A' <= c && c <= 'Z')
}

/// Whether `c` may stand in the name of a scheme: a letter, a digit, a
/// plus sign, a hyphen or a full stop.
pub open spec fn is_scheme_char(c: char) -> bool {
    is_letter(c) || ('0' <= c && c <= '9') || c == '+' || c == '-' || c == '.'
}

/// The number of characters at the start of `s` that may stand in the name
/// of a scheme.
pub open spec fn scheme_len(s: Seq<char>) -> int
    decreases s.len(),
{
    if s.len() == 0 || !is_scheme_char(s[0]) {
        0
    } else {
        1 + scheme_len(s.drop_first())
    }
}

/// Whether `s` begins with a scheme: a name that starts with a letter and
/// goes on with characters of scheme names, directly followed by `://`.
pub open spec fn has_scheme(s: Seq<char>) -> bool {
    s.len() > 0 && is_letter(s[0]) && has_prefix(s.skip(scheme_len(s)), "://"@)
}

/// A length `n` up to which every character may stand in the name of a
/// scheme, and at which the text ends or a character stands that may not, is
/// the one that `scheme_len` gives.
pub proof fn lemma_scheme_len_is(s: Seq<char>, n: int)
    requires
        0 <= n <= s.len(),
        forall|j: int| 0 <= j < n ==> is_scheme_char(s[j]),
        n < s.len() ==> !is_scheme_char(s[n]),
    ensures
        scheme_len(s) == n,
    decreases s.len(),
{
    if s.len() == 0 || !is_scheme_char(s[0]) {
    } else {
        let t = s.drop_first();
        assert forall|j: int| 0 <= j < n - 1 implies is_scheme_char(t[j]) by {
            assert(t[j] == s[j + 1]);
        }
        if n < s.len() {
            assert(t[n - 1] == s[n]);
        }
        lemma_scheme_len_is(t, n - 1);
    }
}

/// Whether `c` is a letter of the Latin alphabet.
pub fn letter(c: char) -> (r: bool)
    ensures
        r == is_letter(c),
{
    (c >= 'a' && c <= 'z') || (c >= 'A' && c <= 'Z')
}

/// Whether `c` may stand in the name of a scheme.
pub fn scheme_char(c: char) -> (r: bool)
    ensures
        r == is_scheme_char(c),
{
    letter(c) || (c >= '0' && c <= '9') || c == '+' || c == '-' || c == '.'
}

/// Whether `text` begins with a scheme.
pub fn begins_with_scheme(text: &str) -> (r: bool)
    ensures
        r == has_scheme(text@),
{
    let chars = to_chars(text);
    if chars.len() == 0 || !letter(chars[0]) {
        return false;
    }
    let mut n: usize = 0;
    while n < chars.len() && scheme_char(chars[n])
        invariant
            n <= chars.len(),
            forall|j: int| 0 <= j < n ==> is_scheme_char(chars@[j]),
        decreases chars.len() - n,
    {
        n += 1;
    }
    proof {
        lemma_scheme_len_is(chars@, n as int);
    }
    let mark = to_chars("://");
    starts_with_at(&chars, n, &mark)
}

/// What `Url::parse` makes of `input`: the URL's serialisation and the
/// segments of its path, or the text of the parser's error.
pub uninterp spec fn parsed_url(input: Seq<char>) -> Result<AddressView, Seq<char>>;

/// `Url::parse`, with the URL that it accepts taken apart by `Url::path_segments`
/// and `String::from`, and the error that it gives turned into its text.
/// The contract claims only that the outcome is the one function
/// `parsed_url` of the input.
#[verifier::external_body]
fn parse_url(input: &str) -> (r: Result<Address, String>)
    ensures
        match r {
            Ok(a) => parsed_url(input@) == Ok::<AddressView, Seq<char>>(a@),
            Err(e) => parsed_url(input@) == Err::<AddressView, Seq<char>>(e@),
        },
{
    match Url::parse(input) {
        Ok(url) => {
            let segments = url.path_segments().map(|s| s.map(String::from).collect());
            Ok(Address { text: String::from(url), segments })
        },
        Err(e) => Err(e.to_string()),
    }
}

impl View for Address {
    type V = AddressView;

    closed spec fn view(&self) -> AddressView {
        AddressView { text: self.text@, segments: self.segments.deep_view() }
    }
}

impl DeepView for Address {
    type V = AddressView;

    open spec fn deep_view(&self) -> AddressView {
        self@
    }
}

impl View for AddressError {
    type V = Seq<char>;

    closed spec fn view(&self) -> Seq<char> {
        self.message@
    }
}

impl AddressError {
    /// The parser's words.
    pub fn message(&self) -> (m: &str)
        ensures
            m@ == self@,
    {
        self.message.as_str()
    }
}

impl AddressView {
    /// The last segment of the path, where the path has segments.
    pub open spec fn last_segment(self) -> Option<Seq<char>> {
        match self.segments {
            Some(segments) => if segments.len() > 0 {
                Some(segments.last())
            } else {
                None
            },
            None => None,
        }
    }
}

impl Address {
    /// Parses `input` as an absolute URL. The result is `Ok` exactly where
    /// the parser accepts the input.
    pub fn parse(input: &str) -> (r: Result<Address, AddressError>)
        ensures
            match r {
                Ok(a) => parsed_url(input@) == Ok::<AddressView, Seq<char>>(a@),
                Err(e) => parsed_url(input@) == Err::<AddressView, Seq<char>>(e@),
            },
    {
        match parse_url(input) {
            Ok(a) => Ok(a),
            Err(message) => Err(AddressError { message }),
        }
    }

    /// The serialisation of the URL.
    pub fn as_str(&self) -> (s: &str)
        ensures
            s@ == self@.text,
    {
        self.text.as_str()
    }

    /// The serialisation of the URL, as a string of its own.
    pub fn to_string(&self) -> (s: String)
        ensures
            s@ == self@.text,
    {
        self.text.clone()
    }

    /// The last segment of the path, where the path has segments.
    pub fn last_segment(&self) -> (r: Option<String>)
        ensures
            r.deep_view() == self@.last_segment(),
    {
        match &self.segments {
            Some(segments) => {
                let n: usize = segments.len();
                if n > 0 {
                    let last = segments[n - 1].clone();
                    Some(last)
                } else {
                    None
                }
            },
            None => None,
        }
    }
}

impl Clone for Address {
    fn clone(&self) -> (r: Self)
        ensures
            r@ == self@,
    {
        let segments = match &self.segments {
            Some(v) => Some(clone_strings(v)),
            None => None,
        };
        Address { text: self.text.clone(), segments }
    }
}

/// A copy of `v`, string by string.
pub fn clone_strings(v: &Vec<String>) -> (r: Vec<String>)
    ensures
        r.deep_view() == v.deep_view(),
{
    let mut r: Vec<String> = Vec::new();
    let mut i: usize = 0;
    while i < v.len()
        invariant
            i <= v.len(),
            r.deep_view() == v.deep_view().take(i as int),
        decreases v.len() - i,
    {
        let ghost before = r.deep_view();
        let item = v[i].clone();
        r.push(item);
        assert(before.push(item@) =~= v.deep_view().take(i + 1));
        i += 1;
    }
    r
}

} // verus!
