//! Absolute addresses and the public-suffix verdict on host names.

use vstd::prelude::*;
use crate::text::same_text;

verus! {

/// The serialization that the URL parser gives to `input` read as an
/// absolute URL, or `None` where it does not parse as one.
pub uninterp spec fn url_parse(input: Seq<char>) -> Option<Seq<char>>;

/// The registrable domain (public suffix plus one label) of `name` per the
/// public suffix list, or `None` where the list gives none.
pub uninterp spec fn registrable_domain(name: Seq<char>) -> Option<Seq<char>>;

/// A well-formed absolute address, held as its normalized serialization.
#[derive(Debug)]
pub struct Address {
    serialization: String,
}

impl View for Address {
    type V = Seq<char>;

    closed spec fn view(&self) -> Seq<char> {
        self.serialization@
    }
}

/// The serialization held by an optional address.
pub open spec fn address_text(a: Option<Address>) -> Option<Seq<char>> {
    match a {
        Some(addr) => Some(addr@),
        None => None,
    }
}

/// Relies on `url::Url::parse`: the normalized serialization of an absolute
/// URL, or an error. The parser reads a scheme only up to a `:`, so a text
/// without one never parses.
#[verifier::external_body]
fn parse_serialized(input: &str) -> (r: Option<String>)
    ensures
        r matches Some(s) ==> url_parse(input@) == Some(s@),
        r is None ==> url_parse(input@) is None,
        !input@.contains(':') ==> r is None,
{
    url::Url::parse(input).ok().map(String::from)
}

/// Relies on `psl::domain_str`: the registrable domain that the public suffix
/// list gives for a name; the empty name has none.
#[verifier::external_body]
fn registrable_part(name: &str) -> (r: Option<String>)
    ensures
        r matches Some(d) ==> registrable_domain(name@) == Some(d@),
        r is None ==> registrable_domain(name@) is None,
        name@.len() == 0 ==> r is None,
{
    psl::domain_str(name).map(String::from)
}

/// Whether `name` is itself a registrable domain.
pub open spec fn is_reg_domain_spec(name: Seq<char>) -> bool {
    registrable_domain(name) == Some(name)
}

/// Whether `registrable`, the registrable domain found for `name`, is `name`
/// itself.
pub fn is_whole_registrable_domain(name: &str, registrable: &Option<String>) -> (r: bool)
    ensures
        r == (registrable matches Some(d) && d@ == name@),
{
    match registrable {
        Some(d) => same_text(d.as_str(), name),
        None => false,
    }
}

/// Whether `name` is exactly the registrable domain that the public suffix
/// list gives for it.
pub fn is_reg_domain(name: &str) -> (r: bool)
    ensures
        r == is_reg_domain_spec(name@),
        name@.len() == 0 ==> !r,
{
    let registrable = registrable_part(name);
    is_whole_registrable_domain(name, &registrable)
}

impl Address {
    /// Parses `input` as an absolute address.
    pub fn parse(input: &str) -> (r: Option<Address>)
        ensures
            address_text(r) == url_parse(input@),
            !input@.contains(':') ==> r is None,
    {
        match parse_serialized(input) {
            Some(s) => Some(Address { serialization: s }),
            None => None,
        }
    }

    /// A second address with the same serialization.
    pub fn duplicate(&self) -> (r: Address)
        ensures
            r@ == self@,
    {
        Address { serialization: self.serialization.clone() }
    }

    /// The serialization of this address.
    pub fn as_str(&self) -> (r: &str)
        ensures
            r@ == self@,
    {
        self.serialization.as_str()
    }

    /// The serialization of this address, as an owned string.
    pub fn into_string(self) -> (r: String)
        ensures
            r@ == self@,
    {
        self.serialization
    }
}

} // verus!
