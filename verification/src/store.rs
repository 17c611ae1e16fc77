//! The stored list of targets and the operations that change it.
//!
//! The list is kept in the order in which targets were added. Reading and writing the file
//! that holds it is the driver's work: every operation here takes the list as it was read
//! and leaves it as it is to be written.

use vstd::prelude::*;
use crate::expect_pretty::{ExpectPretty, Fatal};
use crate::search::{first, first_from, lemma_first_from};
use crate::target::{listed, target_url, unparsed_url, views, Target, TargetView};
use crate::url::{url_serialization, ParsedUrl};

verus! {

/// Where a search of the list for the address `url` ends: at a target with that address,
/// or at one whose stored address does not parse.
pub open spec fn stops_at(url: Seq<char>) -> spec_fn(TargetView) -> bool {
    |target: TargetView|
        url_serialization(target.url) is None || url_serialization(target.url) == Some(url)
}

/// The result of searching `targets`, in order, for the address `url`: the index of the
/// first target with that address, `None` where there is none, or the message of the
/// failure where a target that the search comes to holds an address that does not parse.
pub open spec fn lookup(targets: Seq<TargetView>, url: Seq<char>) -> Result<Option<int>, Seq<char>> {
    let end = first(targets, stops_at(url));
    if end >= targets.len() {
        Ok(None)
    } else if url_serialization(targets[end].url) is None {
        Err(unparsed_url(targets[end].url))
    } else {
        Ok(Some(end))
    }
}

/// The list after an attempt to add `entry`, and whether it was added: a list that holds
/// its address already stays as it is.
pub open spec fn added(targets: Seq<TargetView>, entry: TargetView) -> Result<
    (Seq<TargetView>, bool),
    Seq<char>,
> {
    match lookup(targets, entry.url) {
        Err(message) => Err(message),
        Ok(Some(_)) => Ok((targets, false)),
        Ok(None) => Ok((targets.push(entry), true)),
    }
}

/// The message for an address that no target has.
pub open spec fn not_stored() -> Seq<char> {
    "URL not in targets"@
}

/// The list without the first target that has the address `url`.
pub open spec fn deleted(targets: Seq<TargetView>, url: Seq<char>) -> Result<
    Seq<TargetView>,
    Seq<char>,
> {
    match lookup(targets, url) {
        Err(message) => Err(message),
        Ok(None) => Err(not_stored()),
        Ok(Some(at)) => Ok(targets.remove(at)),
    }
}

/// The message for a target whose address the list does not hold.
pub open spec fn target_missing() -> Seq<char> {
    "Target not in targets"@
}

/// The list with `check` as the markup last seen of the first target that has the address
/// of `target`. The stored target is found by its parsed address alone: its selector and the
/// markup that it holds are not compared.
pub open spec fn updated(targets: Seq<TargetView>, target: TargetView, check: Seq<char>) -> Result<
    Seq<TargetView>,
    Seq<char>,
> {
    match target_url(target) {
        Err(message) => Err(message),
        Ok(url) => match lookup(targets, url) {
            Err(message) => Err(message),
            Ok(None) => Err(target_missing()),
            Ok(Some(at)) => Ok(targets.update(at, TargetView { check, ..targets[at] })),
        },
    }
}

/// The lines of a listing: an empty line, then one line for each target.
pub open spec fn listing(targets: Seq<TargetView>) -> Seq<Seq<char>> {
    seq![Seq::<char>::empty()] + targets.map_values(|target: TargetView| listed(target))
}

/// The lines of `lines` as texts.
pub open spec fn texts(lines: Seq<String>) -> Seq<Seq<char>> {
    lines.map_values(|line: String| line@)
}

/// The list to work with after an attempt to read the stored one, and whether the stored
/// one has to be written anew. `stored` is `None` where the file was missing, unreadable or
/// did not hold a list of targets: the list is then empty, and is to be written so.
pub fn get_targets(stored: Option<Vec<Target>>) -> (loaded: (Vec<Target>, bool))
    ensures
        match stored {
            Some(targets) => loaded.0 == targets && !loaded.1,
            None => loaded.0@ == Seq::<Target>::empty() && loaded.1,
        },
{
    match stored {
        Some(targets) => (targets, false),
        None => (Vec::new(), true),
    }
}

/// Searches `targets`, in order, for the address `url`.
pub fn position(targets: &Vec<Target>, url: &ParsedUrl) -> (found: Result<Option<usize>, Fatal>)
    ensures
        match found {
            Ok(Some(at)) => at < targets.len() && lookup(views(targets@), url@) == Ok::<
                Option<int>,
                Seq<char>,
            >(Some(at as int)),
            Ok(None) => lookup(views(targets@), url@) == Ok::<Option<int>, Seq<char>>(None),
            Err(fatal) => lookup(views(targets@), url@) == Err::<Option<int>, Seq<char>>(fatal@),
        },
{
    let mut at: usize = 0;
    while at < targets.len()
        invariant
            at <= targets.len(),
            first(views(targets@), stops_at(url@)) == first_from(
                views(targets@),
                stops_at(url@),
                at as int,
            ),
        decreases targets.len() - at,
    {
        let stored = targets[at].get_url()?;
        if stored == *url {
            return Ok(Some(at));
        }
        at += 1;
    }
    Ok(None)
}

/// Adds a target at the address `url`, unless the list holds that address already. Returns
/// whether the target was added.
pub fn add(targets: &mut Vec<Target>, url: ParsedUrl, id: String, check: String) -> (outcome:
    Result<bool, Fatal>)
    ensures
        match added(views(old(targets)@), TargetView { url: url@, id: id@, check: check@ }) {
            Ok((after, grown)) => outcome == Ok::<bool, Fatal>(grown) && views(final(targets)@)
                == after,
            Err(message) => outcome is Err && outcome->Err_0@ == message && views(
                final(targets)@,
            ) == views(old(targets)@),
        },
        (exists|at: int|
            0 <= at < old(targets)@.len() && url_serialization(#[trigger] old(targets)@[at].url@)
                == Some(url@)) ==> views(final(targets)@) == views(old(targets)@),
{
    proof {
        lemma_first_from(views(targets@), stops_at(url@), 0);
        assert forall|at: int| 0 <= at < targets@.len() implies url_serialization(
            #[trigger] targets@[at].url@,
        ) != Some(url@) || first(views(targets@), stops_at(url@)) < targets@.len() by {
            assert(stops_at(url@)(views(targets@)[at]) || url_serialization(targets@[at].url@)
                != Some(url@));
        }
    }
    match position(targets, &url)? {
        Some(_) => Ok(false),
        None => {
            targets.push(Target::new(url, id, check));
            assert(views(targets@) == views(old(targets)@).push(
                TargetView { url: url@, id: id@, check: check@ },
            ));
            Ok(true)
        },
    }
}

/// Removes the first target that has the address `url`. The other targets stay, in their
/// order.
pub fn delete(targets: &mut Vec<Target>, url: &ParsedUrl) -> (outcome: Result<(), Fatal>)
    ensures
        match deleted(views(old(targets)@), url@) {
            Ok(after) => outcome is Ok && views(final(targets)@) == after,
            Err(message) => outcome is Err && outcome->Err_0@ == message && views(
                final(targets)@,
            ) == views(old(targets)@),
        },
        outcome is Ok ==> exists|at: int|
            0 <= at < old(targets)@.len() && url_serialization(#[trigger] old(targets)@[at].url@)
                == Some(url@) && final(targets)@ == old(targets)@.remove(at),
{
    proof {
        lemma_first_from(views(targets@), stops_at(url@), 0);
    }
    let found = position(targets, url)?;
    let at = match found.expect_p("URL not in targets") {
        Ok(at) => at,
        Err(fatal) => return Err(fatal),
    };
    targets.remove(at);
    assert(views(targets@) == views(old(targets)@).remove(at as int));
    assert(views(old(targets)@)[at as int] == old(targets)@[at as int]@);
    Ok(())
}

/// Records `new_check` as the markup last seen of the first target that has the address of
/// `target`.
pub fn update_check(targets: &mut Vec<Target>, target: &Target, new_check: String) -> (outcome:
    Result<(), Fatal>)
    ensures
        match updated(views(old(targets)@), target@, new_check@) {
            Ok(after) => outcome is Ok && views(final(targets)@) == after,
            Err(message) => outcome is Err && outcome->Err_0@ == message && views(
                final(targets)@,
            ) == views(old(targets)@),
        },
{
    let url = target.get_url()?;
    proof {
        lemma_first_from(views(targets@), stops_at(url@), 0);
    }
    let found = position(targets, &url)?;
    let at = match found.expect_p("Target not in targets") {
        Ok(at) => at,
        Err(fatal) => return Err(fatal),
    };
    targets[at].set_check(new_check);
    assert(views(targets@) == views(old(targets)@).update(
        at as int,
        TargetView { check: new_check@, ..old(targets)@[at as int]@ },
    ));
    Ok(())
}

/// The lines that show the list: an empty line, then each target's.
pub fn list(targets: &Vec<Target>) -> (lines: Vec<String>)
    ensures
        texts(lines@) == listing(views(targets@)),
{
    let mut lines: Vec<String> = Vec::new();
    lines.push(String::new());
    let mut at: usize = 0;
    while at < targets.len()
        invariant
            at <= targets.len(),
            texts(lines@) == listing(views(targets@).take(at as int)),
        decreases targets.len() - at,
    {
        let ghost before = lines@;
        lines.push(targets[at].to_string());
        assert(views(targets@).take(at + 1) == views(targets@).take(at as int).push(
            targets@[at as int]@,
        ));
        assert(texts(lines@) == texts(before).push(listed(targets@[at as int]@)));
        assert(listing(views(targets@).take(at + 1)) == listing(
            views(targets@).take(at as int),
        ).push(listed(targets@[at as int]@)));
        at += 1;
    }
    assert(views(targets@).take(at as int) == views(targets@));
    lines
}

} // verus!
