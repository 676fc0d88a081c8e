use ncgopher::address::{begins_with_scheme, letter, scheme_char, Address};

#[test]
fn parse_keeps_a_gopher_url() {
    let a = Address::parse("gopher://example.org:70/1/menu").unwrap();
    assert_eq!(a.as_str(), "gopher://example.org:70/1/menu");
    assert_eq!(a.to_string(), "gopher://example.org:70/1/menu");
}

#[test]
fn parse_hands_back_the_serialisation_not_the_input() {
    let a = Address::parse("GOPHER://example.org:70/a b").unwrap();
    assert_eq!(a.as_str(), "gopher://example.org:70/a%20b");
}

#[test]
fn parse_refuses_a_text_without_scheme() {
    let e = Address::parse("example.org/1/").unwrap_err();
    assert_eq!(e.message(), "relative URL without a base");
}

#[test]
fn parse_refuses_a_port_that_is_too_large() {
    let e = Address::parse("gopher://example.org:99999/").unwrap_err();
    assert_eq!(e.message(), "invalid port number");
}

#[test]
fn last_segment_of_a_path() {
    let a = Address::parse("gopher://example.org:70/0/docs/readme.txt").unwrap();
    assert_eq!(a.last_segment(), Some("readme.txt".to_string()));
}

#[test]
fn last_segment_of_a_path_that_ends_in_a_slash_is_empty() {
    let a = Address::parse("gopher://example.org/1/").unwrap();
    assert_eq!(a.last_segment(), Some(String::new()));
}

#[test]
fn address_without_path_has_no_segment() {
    let a = Address::parse("gopher://example.org").unwrap();
    assert_eq!(a.last_segment(), None);
    let b = Address::parse("mailto:someone@example.org").unwrap();
    assert_eq!(b.last_segment(), None);
}

#[test]
fn clone_is_equal() {
    let a = Address::parse("gopher://example.org:70/1/menu").unwrap();
    assert_eq!(a.clone(), a);
}

#[test]
fn scheme_is_a_name_before_colon_and_two_slashes() {
    for text in ["gopher://example.org", "gemini://x", "HTTP://x", "a+b-c.d://x", "x://", "g0://x"] {
        assert!(begins_with_scheme(text), "for {:?}", text);
    }
    for text in [
        "",
        "example.org",
        "example.org:7070/1/x",
        "example.org/1/",
        "://x",
        "1st://x",
        "gopher:/x",
        "gopher:x",
        "go pher://x",
        "gopher",
        "+a://x",
    ] {
        assert!(!begins_with_scheme(text), "for {:?}", text);
    }
}

#[test]
fn characters_of_scheme_names() {
    for c in ['a', 'z', 'A', 'Z'] {
        assert!(letter(c) && scheme_char(c));
    }
    for c in ['0', '9', '+', '-', '.'] {
        assert!(!letter(c) && scheme_char(c));
    }
    for c in [':', '/', ' ', '_', '@', '[', '`', '{', 'é'] {
        assert!(!letter(c) && !scheme_char(c), "for {:?}", c);
    }
}
