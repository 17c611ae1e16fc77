//! A watched element: where it is, how it is selected and what it last held.

use vstd::prelude::*;
use vstd::string::StringExecFns;
use crate::expect_pretty::{ExpectPretty, Fatal};
use crate::url::{url_serialization, ParsedUrl};

verus! {

/// A watched element, as it is stored.
#[derive(Debug, Clone)]
pub struct Target {
    /// The address of the page.
    pub url: String,
    /// The CSS selector of the element.
    pub id: String,
    /// The markup of the element when the page was last looked at.
    pub check: String,
}

/// A target as three texts.
pub struct TargetView {
    pub url: Seq<char>,
    pub id: Seq<char>,
    pub check: Seq<char>,
}

impl View for Target {
    type V = TargetView;

    open spec fn view(&self) -> TargetView {
        TargetView { url: self.url@, id: self.id@, check: self.check@ }
    }
}

/// The targets of a list, each as three texts.
pub open spec fn views(targets: Seq<Target>) -> Seq<TargetView> {
    targets.map_values(|target: Target| target@)
}

/// The message for a stored address that the parser rejects.
pub open spec fn unparsed_url(url: Seq<char>) -> Seq<char> {
    "Error when parsing url: "@ + url
}

/// The address of `target`, parsed, or the message of the failure.
pub open spec fn target_url(target: TargetView) -> Result<Seq<char>, Seq<char>> {
    match url_serialization(target.url) {
        Some(serialization) => Ok(serialization),
        None => Err(unparsed_url(target.url)),
    }
}

/// The line that shows `target` in a listing.
pub open spec fn listed(target: TargetView) -> Seq<char> {
    target.url + " | "@ + target.id
}

/// The text that tells the user that `target` has changed.
pub open spec fn notification(target: TargetView) -> Seq<char> {
    "Stock Checker: tag "@ + target.id + " has been updated at "@ + target.url
}

impl Target {
    /// A target at the parsed address `url`.
    pub fn new(url: ParsedUrl, id: String, check: String) -> (target: Target)
        ensures
            target@ == (TargetView { url: url@, id: id@, check: check@ }),
    {
        Target { url: String::from_str(url.as_str()), id, check }
    }

    /// Parses the stored address. A target that was stored by hand may hold one that does
    /// not parse, which is a failure.
    pub fn get_url(&self) -> (outcome: Result<ParsedUrl, Fatal>)
        ensures
            match target_url(self@) {
                Ok(serialization) => outcome is Ok && outcome->Ok_0@ == serialization,
                Err(message) => outcome is Err && outcome->Err_0@ == message,
            },
    {
        let message = String::from_str("Error when parsing url: ").concat(self.url.as_str());
        ParsedUrl::parse(self.url.as_str()).expect_p(message.as_str())
    }

    /// Replaces the markup last seen.
    pub fn set_check(&mut self, check: String)
        ensures
            final(self)@ == (TargetView { check: check@, ..old(self)@ }),
    {
        self.check = check
    }

    /// The line that shows this target in a listing: the address and the selector.
    pub fn to_string(&self) -> (line: String)
        ensures
            line@ == listed(self@),
    {
        self.url.clone().concat(" | ").concat(self.id.as_str())
    }
}

impl PartialEq for Target {
    fn eq(&self, other: &Target) -> (same: bool) {
        self.url == other.url && self.id == other.id && self.check == other.check
    }
}

impl vstd::std_specs::cmp::PartialEqSpecImpl for Target {
    open spec fn obeys_eq_spec() -> bool {
        true
    }

    open spec fn eq_spec(&self, other: &Target) -> bool {
        self@ == other@
    }
}

/// The body of the message that reports a change of `target`.
pub fn send_notif(target: &Target) -> (body: String)
    ensures
        body@ == notification(target@),
{
    String::from_str("Stock Checker: tag ").concat(target.id.as_str()).concat(
        " has been updated at ",
    ).concat(target.url.as_str())
}

} // verus!
