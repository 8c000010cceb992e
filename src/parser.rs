//! Interpretation of location-bar text as an address.
//!
//! Text that is already an absolute address is taken as it is; otherwise it is
//! tried as a local file path, then as a domain name, and as a last resort it
//! is substituted into the search page template.

use vstd::prelude::*;
use crate::address::{address_text, is_reg_domain, is_reg_domain_spec, url_parse, Address};
use crate::text::{
    contains_char, count_char, lemma_contains_occurs, replace_all, replace_pattern, segment_count, starts_with,
    starts_with_char, trim_white_space, trimmed,
};

verus! {

/// `file://`
pub open spec fn file_prefix() -> Seq<char> {
    seq!['f', 'i', 'l', 'e', ':', '/', '/']
}

/// `https://`
pub open spec fn https_prefix() -> Seq<char> {
    seq!['h', 't', 't', 'p', 's', ':', '/', '/']
}

/// `%s`, the token in a search page template that stands for the query.
pub open spec fn query_token() -> Seq<char> {
    seq!['%', 's']
}

/// Whether `s` looks like a host name, possibly followed by a path: it holds a
/// `/` past its start, or it has no space, does not start with `.` and splits
/// into more than one `.`-separated segment.
pub open spec fn domain_like(s: Seq<char>) -> bool {
    (!starts_with(s, '/') && s.contains('/')) || (!s.contains(' ') && !starts_with(s, '.')
        && segment_count(s, '.') > 1)
}

/// Whether `s` is taken as a domain name.
pub open spec fn taken_as_domain(s: Seq<char>) -> bool {
    (!s.contains(' ') && is_reg_domain_spec(s)) || domain_like(s)
}

/// The file address that a path names, if it is one.
pub open spec fn file_candidate(s: Seq<char>) -> Option<Seq<char>> {
    if starts_with(s, '/') {
        url_parse(file_prefix() + s)
    } else {
        None
    }
}

/// The `https` address that a domain name gives, if it is one.
pub open spec fn domain_candidate(s: Seq<char>) -> Option<Seq<char>> {
    if taken_as_domain(s) {
        url_parse(https_prefix() + s)
    } else {
        None
    }
}

/// The search page address for a query, if the query is not empty.
pub open spec fn search_candidate(s: Seq<char>, searchpage: Seq<char>) -> Option<Seq<char>> {
    if s.len() == 0 {
        None
    } else {
        url_parse(replace_all(searchpage, query_token(), s))
    }
}

/// The first of the candidates, in order, that exists.
pub open spec fn first_of(
    a: Option<Seq<char>>,
    b: Option<Seq<char>>,
    c: Option<Seq<char>>,
    d: Option<Seq<char>>,
) -> Option<Seq<char>> {
    if a is Some {
        a
    } else if b is Some {
        b
    } else if c is Some {
        c
    } else {
        d
    }
}

/// The address that location-bar text `request` resolves to, given the
/// search page template `searchpage`.
pub open spec fn resolve(request: Seq<char>, searchpage: Seq<char>) -> Option<Seq<char>> {
    let s = trimmed(request);
    first_of(url_parse(s), file_candidate(s), domain_candidate(s), search_candidate(s, searchpage))
}

/// Text of one token with an inner `.` and no scheme: a host name to be.
pub open spec fn dotted_token(s: Seq<char>) -> bool {
    &&& !s.contains(' ')
    &&& !s.contains(':')
    &&& !starts_with(s, '.')
    &&& !starts_with(s, '/')
    &&& s.contains('.')
}

/// Text with no scheme and no path that is no host name: it holds a space, or
/// starts with `.` and is not a registrable domain.
pub open spec fn not_a_host(s: Seq<char>) -> bool {
    &&& !s.contains('/')
    &&& !s.contains(':')
    &&& (s.contains(' ') || (starts_with(s, '.') && !is_reg_domain_spec(s)))
}

/// Text that parses as an absolute address resolves to that address, whatever
/// the search page template.
pub proof fn lemma_absolute_address_kept(request: Seq<char>, page_a: Seq<char>, page_b: Seq<char>)
    requires
        url_parse(trimmed(request)) is Some,
    ensures
        resolve(request, page_a) == url_parse(trimmed(request)),
        resolve(request, page_a) == resolve(request, page_b),
{
}

/// Whether `s` looks like a host name (see [`domain_like`]).
pub fn is_domain_like(s: &str) -> (r: bool)
    ensures
        r == domain_like(s@),
{
    let slash_first = starts_with_char(s, '/');
    (!slash_first && contains_char(s, '/')) || (!contains_char(s, ' ') && !starts_with_char(
        s,
        '.',
    ) && count_char(s, '.') > 0)
}

/// Reads a path that starts with `/` as a `file` address.
pub fn try_as_file(request: &str) -> (r: Option<Address>)
    ensures
        address_text(r) == file_candidate(request@),
{
    if starts_with_char(request, '/') {
        let mut text = String::from_str("file://");
        proof {
            reveal_strlit("file://");
        }
        text.append(request);
        assert(text@ =~= file_prefix() + request@);
        return Address::parse(text.as_str());
    }
    None
}

/// Reads a domain name, or text that looks like one, as an `https` address.
pub fn try_as_domain(request: &str) -> (r: Option<Address>)
    ensures
        address_text(r) == domain_candidate(request@),
        request@.len() == 0 ==> r is None,
        dotted_token(request@) ==> taken_as_domain(request@) && address_text(r) == url_parse(
            https_prefix() + request@,
        ),
{
    proof {
        if dotted_token(request@) {
            lemma_contains_occurs(request@, '.');
        }
    }
    if (!contains_char(request, ' ') && is_reg_domain(request)) || is_domain_like(request) {
        let mut text = String::from_str("https://");
        proof {
            reveal_strlit("https://");
        }
        text.append(request);
        assert(text@ =~= https_prefix() + request@);
        return Address::parse(text.as_str());
    }
    None
}

/// The search page template with the query put in place of each `%s`.
pub fn search_page_text(request: &str, searchpage: &str) -> (r: String)
    ensures
        r@ == replace_all(searchpage@, query_token(), request@),
{
    let token = "%s";
    proof {
        reveal_strlit("%s");
        assert(token@ =~= query_token());
    }
    replace_pattern(searchpage, token, request)
}

/// Sends a non-empty query to the search page.
pub fn try_as_search_page(request: &str, searchpage: &str) -> (r: Option<Address>)
    ensures
        address_text(r) == search_candidate(request@, searchpage@),
{
    if request.unicode_len() == 0 {
        return None;
    }
    let text = search_page_text(request, searchpage);
    Address::parse(text.as_str())
}

/// Interprets location-bar text. Text that parses as an absolute address is
/// taken unchanged; otherwise it is tried as a file path, then as a domain
/// name, then as a query for the search page `searchpage`.
pub fn location_bar_input_to_url(request: &str, searchpage: &str) -> (r: Option<Address>)
    ensures
        address_text(r) == resolve(request@, searchpage@),
        url_parse(trimmed(request@)) is Some ==> address_text(r) == url_parse(trimmed(request@)),
        dotted_token(trimmed(request@)) ==> taken_as_domain(trimmed(request@)) && (url_parse(
            https_prefix() + trimmed(request@),
        ) is Some ==> address_text(r) == url_parse(https_prefix() + trimmed(request@))),
        not_a_host(trimmed(request@)) ==> !taken_as_domain(trimmed(request@)) && address_text(r)
            == search_candidate(trimmed(request@), searchpage@),
        trimmed(request@).len() == 0 ==> r is None,
{
    let request = trim_white_space(request);
    proof {
        let s = request@;
        if dotted_token(s) {
            lemma_contains_occurs(s, '.');
        }
        if s.len() == 0 {
            assert(!s.contains(':'));
            assert(!s.contains('/'));
            assert(!s.contains(' '));
            assert(!s.contains('.'));
        }
    }
    let parsed = Address::parse(request);
    if parsed.is_some() {
        return parsed;
    }
    let file = try_as_file(request);
    if file.is_some() {
        return file;
    }
    let domain = try_as_domain(request);
    if domain.is_some() {
        return domain;
    }
    try_as_search_page(request, searchpage)
}

} // verus!
