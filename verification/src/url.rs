//! Addresses, in the form by which pages are fetched and targets are told apart.

use vstd::prelude::*;

verus! {

/// What `reqwest::Url::parse` makes of `text`: the serialization of the address it parsed,
/// as `Url::as_str` gives it, or `None` where it rejects the text.
pub uninterp spec fn url_serialization(text: Seq<char>) -> Option<Seq<char>>;

/// Calls `reqwest::Url::parse` on `text` and, where that succeeds, `Url::as_str` on the
/// address. Nothing is proved of the parser: the contract only gives its result the name
/// `url_serialization`, which claims that equal texts are parsed alike.
#[verifier::external_body]
fn serialize(text: &str) -> (serialization: Option<String>)
    ensures
        match serialization {
            Some(s) => url_serialization(text@) == Some(s@),
            None => url_serialization(text@) is None,
        },
{
    match reqwest::Url::parse(text) {
        Ok(url) => Some(String::from(url.as_str())),
        Err(_) => None,
    }
}

/// An address that the parser accepted, kept as its serialization. Two parsed addresses are
/// the same address exactly when their serializations are equal.
#[derive(Debug, Clone)]
pub struct ParsedUrl {
    serialization: String,
}

impl View for ParsedUrl {
    type V = Seq<char>;

    closed spec fn view(&self) -> Seq<char> {
        self.serialization@
    }
}

impl ParsedUrl {
    /// Parses `text` as an absolute address.
    pub fn parse(text: &str) -> (parsed: Option<ParsedUrl>)
        ensures
            match parsed {
                Some(url) => url_serialization(text@) == Some(url@),
                None => url_serialization(text@) is None,
            },
    {
        match serialize(text) {
            Some(serialization) => Some(ParsedUrl { serialization }),
            None => None,
        }
    }

    /// The serialization of the address.
    pub fn as_str(&self) -> (text: &str)
        ensures
            text@ == self@,
    {
        self.serialization.as_str()
    }
}

impl PartialEq for ParsedUrl {
    fn eq(&self, other: &ParsedUrl) -> (same: bool) {
        self.serialization == other.serialization
    }
}

impl vstd::std_specs::cmp::PartialEqSpecImpl for ParsedUrl {
    open spec fn obeys_eq_spec() -> bool {
        true
    }

    open spec fn eq_spec(&self, other: &ParsedUrl) -> bool {
        self@ == other@
    }
}

} // verus!
