use servoshell::text::{is_white_space_char, replace_pattern, trim_white_space};
use servoshell::address::{is_reg_domain, Address};
use servoshell::parser::{
    is_domain_like, location_bar_input_to_url, search_page_text, try_as_domain, try_as_file,
    try_as_search_page,
};

const SEARCH: &str = "https://duckduckgo.com/html/?q=%s";

// Helper function to test url
fn test_url(input: &str, location: &str) {
    assert_eq!(
        location_bar_input_to_url(input, SEARCH).unwrap().into_string(),
        location
    );
}

fn test_url_any_os(input: &str, location: &str) {
    test_url(input, location);
}

#[test]
fn test_cmdline_and_location_bar_url() {
    test_url("data:text/html,a", "data:text/html,a");
    test_url("README.md", "https://readme.md/");
    test_url("nic.md", "https://nic.md/");
    test_url("nic.md/ro", "https://nic.md/ro");
    test_url("foo.txt", "https://foo.txt/");
    test_url("foo.txt/ro", "https://foo.txt/ro");
    test_url(
        "resources/public_domains.txt",
        "https://resources/public_domains.txt",
    );
    test_url("dragonfruit", "https://duckduckgo.com/html/?q=dragonfruit");
}

#[test]
fn test_test_cmdline_and_location_bar_url() {
    test_url("data:text/html,a", "data:text/html,a");
    test_url("README.md", "https://readme.md/");
    test_url("nic.md", "https://nic.md/");
    test_url("nic.md/ro", "https://nic.md/ro");
    test_url("foo.txt", "https://foo.txt/");
    test_url("foo.txt/ro", "https://foo.txt/ro");
    test_url(
        "resources/public_domains.txt",
        "https://resources/public_domains.txt",
    );
    test_url("dragonfruit", "https://duckduckgo.com/html/?q=dragonfruit");
}

#[test]
fn test_cmd_and_location_bar_url() {
    test_url("/dev/null", "file:///dev/null");
}

#[test]
fn test_issue_35754() {
    test_url_any_os("leah.chromebooks.lol", "https://leah.chromebooks.lol/");

    // ends with dot
    test_url_any_os("leah.chromebooks.lol.", "https://leah.chromebooks.lol./");

    // starts with dot
    test_url_any_os(
        ".leah.chromebooks.lol",
        "https://duckduckgo.com/html/?q=.leah.chromebooks.lol",
    );

    // contains spaces
    test_url_any_os(
        "3.5 kg in lb",
        "https://duckduckgo.com/html/?q=3.5%20kg%20in%20lb",
    );

    // user-local domain
    test_url_any_os("foo/bar", "https://foo/bar");
}

#[test]
fn absolute_address_kept_whatever_the_template() {
    for page in [SEARCH, "https://example.org/search?q=%s", "%s", ""] {
        assert_eq!(
            location_bar_input_to_url("data:text/html,a", page).unwrap().into_string(),
            "data:text/html,a"
        );
        assert_eq!(
            location_bar_input_to_url("https://servo.org/path", page).unwrap().into_string(),
            "https://servo.org/path"
        );
    }
}

#[test]
fn surrounding_white_space_is_trimmed() {
    test_url("  nic.md\t\n", "https://nic.md/");
    test_url("\u{3000}dragonfruit ", "https://duckduckgo.com/html/?q=dragonfruit");
}

#[test]
fn empty_input_never_resolves() {
    for page in [SEARCH, "https://example.org/?q=%s", "%s", ""] {
        assert!(location_bar_input_to_url("", page).is_none());
        assert!(location_bar_input_to_url("   ", page).is_none());
        assert!(location_bar_input_to_url("\t\n", page).is_none());
    }
}

#[test]
fn unparsable_search_template_fails() {
    assert!(location_bar_input_to_url("two words", "not an address %s").is_none());
}

#[test]
fn dotted_token_goes_to_https_lowercased() {
    test_url("Example.COM", "https://example.com/");
    test_url("a.b.c", "https://a.b.c/");
}

#[test]
fn domain_likeness_heuristic() {
    assert!(is_domain_like("foo/bar"));
    assert!(is_domain_like("nic.md"));
    assert!(is_domain_like("nic.md/ro"));
    assert!(is_domain_like("a.b"));
    assert!(!is_domain_like("/foo/bar"));
    assert!(!is_domain_like(".leah.chromebooks.lol"));
    assert!(!is_domain_like("3.5 kg in lb"));
    assert!(!is_domain_like("dragonfruit"));
    assert!(!is_domain_like(""));
    assert!(is_domain_like("a b/c"));
}

#[test]
fn registrable_domain_verdict() {
    assert!(is_reg_domain("example.com"));
    assert!(!is_reg_domain("www.example.com"));
    assert!(!is_reg_domain("com"));
    assert!(!is_reg_domain(""));
}

#[test]
fn search_template_substitution() {
    assert_eq!(
        search_page_text("3.5 kg", SEARCH),
        "https://duckduckgo.com/html/?q=3.5 kg"
    );
    assert_eq!(search_page_text("x", "%s-%s"), "x-x");
    assert_eq!(search_page_text("x", "no token"), "no token");
}

#[test]
fn each_fallback_on_its_own() {
    assert_eq!(try_as_file("/tmp/a b").unwrap().into_string(), "file:///tmp/a%20b");
    assert!(try_as_file("tmp").is_none());
    assert_eq!(try_as_domain("nic.md").unwrap().into_string(), "https://nic.md/");
    assert!(try_as_domain("dragonfruit").is_none());
    assert!(try_as_search_page("", SEARCH).is_none());
    assert_eq!(
        try_as_search_page("a b", SEARCH).unwrap().into_string(),
        "https://duckduckgo.com/html/?q=a%20b"
    );
}

#[test]
fn address_parse_normalizes() {
    assert_eq!(Address::parse("HTTPS://Servo.ORG").unwrap().as_str(), "https://servo.org/");
    assert!(Address::parse("no scheme here").is_none());
    let a = Address::parse("resource:///newtab.html").unwrap();
    assert_eq!(a.duplicate().into_string(), "resource:///newtab.html");
}

#[test]
fn trailing_dot_kept_by_domain_step() {
    assert_eq!(
        try_as_domain("leah.chromebooks.lol.").unwrap().into_string(),
        "https://leah.chromebooks.lol./"
    );
}

#[test]
fn trimming_and_replacing_text() {
    assert_eq!(trim_white_space("  a b \t\n"), "a b");
    assert_eq!(trim_white_space("\u{a0}\u{2003}x\u{3000}"), "x");
    assert_eq!(trim_white_space(" \t "), "");
    assert_eq!(trim_white_space("\u{200b}x"), "\u{200b}x");
    assert!(is_white_space_char('\u{85}'));
    assert!(!is_white_space_char('\u{200b}'));
    assert_eq!(replace_pattern("a%sb%s", "%s", "X"), "aXbX");
    assert_eq!(replace_pattern("%%ss", "%s", "Y"), "%Ys");
    assert_eq!(replace_pattern("aaa", "aa", "b"), "ba");
    assert_eq!(replace_pattern("", "%s", "q"), "");
}
