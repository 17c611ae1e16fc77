//! What a page holds at a selector.

use vstd::prelude::*;
use vstd::string::StrSliceExecFns;
use crate::expect_pretty::{ExpectPretty, Fatal};

verus! {

/// What scraper finds in a page. `Err` where `Selector::parse` rejects `selector`.
/// Otherwise `body` is parsed by `Html::parse_document`, and the result is the markup
/// (`ElementRef::html`) of the first element that `Html::select` yields for the selector,
/// or `Ok(None)` where it yields none.
pub uninterp spec fn first_match(body: Seq<char>, selector: Seq<char>) -> Result<
    Option<Seq<char>>,
    (),
>;

/// The greatest number of characters of a page that is searched. The parser keeps text in
/// buffers that hold less than 2^32 bytes and panics beyond that. A character takes at most
/// four bytes, and the parser puts a character of three bytes in place of one of one byte, so
/// a page within this bound stays far below the buffers' limit.
pub const MAX_BODY: usize = 16_777_216;

/// Calls scraper: `Selector::parse` on `selector`, `Html::parse_document` on `body`,
/// `Html::select` with the two, `next` on what it returns, and `ElementRef::html` on the
/// element found. Nothing is proved of the parsers, the matching or the serializer: the
/// contract only gives the result the name `first_match`, which claims that equal pages and
/// selectors give equal results. Pages beyond `MAX_BODY` are left out, because the parser
/// panics on a text that its buffers cannot hold.
#[verifier::external_body]
fn select_first(body: &str, selector: &str) -> (found: Result<Option<String>, ()>)
    requires
        body@.len() <= MAX_BODY,
    ensures
        match found {
            Ok(Some(html)) => first_match(body@, selector@) == Ok::<Option<Seq<char>>, ()>(
                Some(html@),
            ),
            Ok(None) => first_match(body@, selector@) == Ok::<Option<Seq<char>>, ()>(None),
            Err(_) => first_match(body@, selector@) is Err,
        },
{
    let parsed = match scraper::Selector::parse(selector) {
        Ok(parsed) => parsed,
        Err(_) => return Err(()),
    };
    match scraper::Html::parse_document(body).select(&parsed).next() {
        Some(element) => Ok(Some(element.html())),
        None => Ok(None),
    }
}

/// The message for a page of more than `MAX_BODY` characters.
pub open spec fn too_large() -> Seq<char> {
    "Page too large"@
}

/// The message for a selector that the selector parser rejects.
pub open spec fn invalid_selector() -> Seq<char> {
    "Invalid selector"@
}

/// The message for a selector that matches nothing in the page.
pub open spec fn no_element() -> Seq<char> {
    "No elements with id or unique class in page\nDid you specify the id or class with '#' or '.'?"@
}

/// What a scrape returns for each thing that the search of a page can come to: the markup
/// found, or the message of the failure.
pub open spec fn scraped(found: Result<Option<Seq<char>>, ()>) -> Result<Seq<char>, Seq<char>> {
    match found {
        Err(_) => Err(invalid_selector()),
        Ok(None) => Err(no_element()),
        Ok(Some(html)) => Ok(html),
    }
}

/// Whether `outcome` is `expected`, markup and messages compared as text.
pub open spec fn text_outcome(
    outcome: Result<String, Fatal>,
    expected: Result<Seq<char>, Seq<char>>,
) -> bool {
    match expected {
        Ok(text) => outcome is Ok && outcome->Ok_0@ == text,
        Err(message) => outcome is Err && outcome->Err_0@ == message,
    }
}

/// Turns the result of a search into the result of a scrape: a rejected selector and a
/// selector without a match are failures, each with its own message.
pub fn found_element(found: Result<Option<String>, ()>) -> (outcome: Result<String, Fatal>)
    ensures
        text_outcome(
            outcome,
            scraped(
                match found {
                    Ok(Some(html)) => Ok(Some(html@)),
                    Ok(None) => Ok(None),
                    Err(_) => Err(()),
                },
            ),
        ),
{
    match found.expect_p("Invalid selector") {
        Ok(element) => element.expect_p(
            "No elements with id or unique class in page\nDid you specify the id or class with '#' or '.'?",
        ),
        Err(fatal) => Err(fatal),
    }
}

/// What a scrape of the page `body` for the selector `id` returns: a page of more than
/// `MAX_BODY` characters is not searched, which is a failure; any other page gives what the
/// search of it comes to.
pub open spec fn scrape_outcome(body: Seq<char>, id: Seq<char>) -> Result<Seq<char>, Seq<char>> {
    if body.len() > MAX_BODY {
        Err(too_large())
    } else {
        scraped(first_match(body, id))
    }
}

/// The markup of the first element of the page `body` that the selector `id` matches,
/// the element's own tag included.
pub fn scrape(body: &str, id: &str) -> (outcome: Result<String, Fatal>)
    ensures
        text_outcome(outcome, scrape_outcome(body@, id@)),
{
    if body.unicode_len() > MAX_BODY {
        return Err(Fatal::new("Page too large"));
    }
    found_element(select_first(body, id))
}

} // verus!
