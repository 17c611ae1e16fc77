//! A pass, run against a model of the world.
//!
//! The world of the model is what a driver works on: the pages of the web, one body for each
//! address; the stored list; and the messages sent so far. A driver that does what it is
//! asked answers each action from that world, and nothing else touches the world while the
//! pass runs. Of a pass that is run so, this module proves what it leaves behind.

use vstd::prelude::*;
use crate::pass::{next, turn_to, ActionView, EventView, PassView};
use crate::scrape::scrape_outcome;
use crate::search::{first, first_from, lemma_first_from, lemma_first_is};
use crate::store::stops_at;
use crate::target::{notification, target_url, TargetView};

verus! {

/// The world that a driver works on.
pub struct World {
    /// The body of the page at each address.
    pub web: spec_fn(Seq<char>) -> Seq<char>,
    /// The stored list.
    pub stored: Seq<TargetView>,
    /// The messages sent, the oldest first.
    pub sent: Seq<Seq<char>>,
}

/// What the driver does on `action`: the world afterwards and the event that it reports, or
/// `None` where the action ends the pass.
pub open spec fn answer(world: World, action: ActionView) -> Option<(World, EventView)> {
    match action {
        ActionView::Load => Some((world, EventView::Loaded(world.stored))),
        ActionView::Fetch(url) => Some((world, EventView::Page((world.web)(url)))),
        ActionView::Notify(message) => Some(
            (World { sent: world.sent.push(message), ..world }, EventView::Sent),
        ),
        ActionView::Save(targets) => Some((World { stored: targets, ..world }, EventView::Saved)),
        ActionView::Finish => None,
        ActionView::Abort(_) => None,
    }
}

/// The number of targets that the pass has still to deal with, the current one included.
pub open spec fn span(targets: Seq<TargetView>, index: int) -> nat {
    if 0 <= index < targets.len() {
        (targets.len() - index) as nat
    } else {
        0
    }
}

/// A bound on the number of actions that the driver has still to answer.
pub open spec fn left(pass: PassView, action: ActionView, world: World) -> nat {
    if action is Finish || action is Abort {
        0
    } else {
        match pass {
            PassView::Idle => 1,
            PassView::Loading => 4 * world.stored.len() + 5,
            PassView::Fetching { targets, index } => 4 * span(targets, index) + 4,
            PassView::Notifying { targets, index, .. } => 4 * span(targets, index) + 3,
            PassView::Reloading { targets, index, .. } => 4 * span(targets, index) + 2,
            PassView::Saving { targets, index } => 4 * span(targets, index) + 1,
            PassView::Finished => 1,
        }
    }
}

/// Runs the pass from the state `pass`, in which `action` was asked, to its end: the world
/// that it leaves and the action that ended it, `Finish` or `Abort`.
pub open spec fn run(pass: PassView, action: ActionView, world: World) -> (World, ActionView)
    decreases left(pass, action, world),
{
    match answer(world, action) {
        None => (world, action),
        Some((after, event)) => {
            let step = next(pass, event);
            run(step.0, step.1, after)
        },
    }
}

/// A whole pass over `world`, from `Event::Start` on.
pub open spec fn whole_pass(world: World) -> (World, ActionView) {
    let step = next(PassView::Idle, EventView::Start);
    run(step.0, step.1, world)
}

/// No two targets of the list have the same parsed address. `add` refuses an address that
/// the list already holds.
pub open spec fn distinct_addresses(targets: Seq<TargetView>) -> bool {
    forall|one: int, other: int|
        0 <= one < other < targets.len() && target_url(#[trigger] targets[one]) is Ok
            ==> target_url(targets[one]) != target_url(#[trigger] targets[other])
}

/// What a pass finds for `target` on the web: the markup of the element, or the message of
/// the failure that ends the pass at this target.
pub open spec fn seen(web: spec_fn(Seq<char>) -> Seq<char>, target: TargetView) -> Result<
    Seq<char>,
    Seq<char>,
> {
    match target_url(target) {
        Ok(url) => scrape_outcome(web(url), target.id),
        Err(message) => Err(message),
    }
}

/// Holds of the targets at which a pass over `web` fails.
pub open spec fn failing(web: spec_fn(Seq<char>) -> Seq<char>) -> spec_fn(TargetView) -> bool {
    |target: TargetView| seen(web, target) is Err
}

/// Whether the element of `target` differs on the web from the markup last seen.
pub open spec fn changed(web: spec_fn(Seq<char>) -> Seq<char>, target: TargetView) -> bool {
    seen(web, target) is Ok && seen(web, target)->Ok_0 != target.check
}

/// `target` with the markup that the web holds for it.
pub open spec fn refreshed(web: spec_fn(Seq<char>) -> Seq<char>, target: TargetView) -> TargetView {
    match seen(web, target) {
        Ok(found) => TargetView { check: found, ..target },
        Err(_) => target,
    }
}

/// The list in which every target before `end` has the markup that the web holds for it,
/// and the others are as they were.
pub open spec fn refreshed_before(
    web: spec_fn(Seq<char>) -> Seq<char>,
    targets: Seq<TargetView>,
    end: int,
) -> Seq<TargetView> {
    Seq::new(
        targets.len(),
        |at: int|
            if at < end {
                refreshed(web, targets[at])
            } else {
                targets[at]
            },
    )
}

/// Every target of the list with the markup that the web holds for it.
pub open spec fn refreshed_all(
    web: spec_fn(Seq<char>) -> Seq<char>,
    targets: Seq<TargetView>,
) -> Seq<TargetView> {
    refreshed_before(web, targets, targets.len() as int)
}

/// The messages for the targets from `from` up to `end`, that one left out, that have
/// changed, in the order of the list.
pub open spec fn notices(
    web: spec_fn(Seq<char>) -> Seq<char>,
    targets: Seq<TargetView>,
    from: int,
    end: int,
) -> Seq<Seq<char>>
    decreases end - from,
{
    if from < 0 || from >= end || end > targets.len() {
        Seq::empty()
    } else if changed(web, targets[from]) {
        seq![notification(targets[from])] + notices(web, targets, from + 1, end)
    } else {
        notices(web, targets, from + 1, end)
    }
}

/// Where a pass that has come to the target at `index` ends: the world that it leaves and
/// the action that ends it. It ends at the first target from there on at which it fails, or
/// behind the last one.
pub open spec fn ending(targets: Seq<TargetView>, index: int, world: World) -> (World, ActionView) {
    let end = first_from(targets, failing(world.web), index);
    (
        World {
            web: world.web,
            stored: refreshed_before(world.web, targets, end),
            sent: world.sent + notices(world.web, targets, index, end),
        },
        if end < targets.len() {
            ActionView::Abort(seen(world.web, targets[end])->Err_0)
        } else {
            ActionView::Finish
        },
    )
}

/// The pass from the target at `index` on, where it has not failed before and the stored
/// list holds the targets before `index` with the markup found and the others as they were
/// read.
proof fn lemma_pass_from(targets: Seq<TargetView>, index: int, world: World)
    requires
        0 <= index <= targets.len(),
        distinct_addresses(targets),
        world.stored == refreshed_before(world.web, targets, index),
        forall|at: int| 0 <= at < index ==> seen(world.web, #[trigger] targets[at]) is Ok,
    ensures
        ({
            let step = turn_to(targets, index);
            run(step.0, step.1, world) == ending(targets, index, world)
        }),
    decreases targets.len() - index,
{
    let web = world.web;
    let step = turn_to(targets, index);
    let end = first_from(targets, failing(web), index);
    lemma_first_from(targets, failing(web), index);
    if index >= targets.len() {
        assert(world.sent + notices(web, targets, index, end) =~= world.sent);
    } else {
        let target = targets[index];
        match seen(web, target) {
            Err(_) => {
                assert(world.sent + notices(web, targets, index, end) =~= world.sent);
                if target_url(target) is Ok {
                    let url = target_url(target)->Ok_0;
                    let paged = next(
                        PassView::Fetching { targets, index },
                        EventView::Page(web(url)),
                    );
                    assert(run(step.0, step.1, world) == run(paged.0, paged.1, world));
                }
            },
            Ok(found) => {
                let url = target_url(target)->Ok_0;
                let paged = next(PassView::Fetching { targets, index }, EventView::Page(web(url)));
                assert(run(step.0, step.1, world) == run(paged.0, paged.1, world));
                lemma_first_from(targets, failing(web), index + 1);
                if found == target.check {
                    assert(refreshed(web, target) == target);
                    assert(world.stored =~= refreshed_before(web, targets, index + 1));
                    lemma_pass_from(targets, index + 1, world);
                } else {
                    let told = World { sent: world.sent.push(notification(target)), ..world };
                    let reloading = PassView::Reloading { targets, index, found };
                    assert(run(paged.0, paged.1, world) == run(reloading, ActionView::Load, told));
                    assert forall|at: int| 0 <= at < index implies !stops_at(url)(
                        #[trigger] world.stored[at],
                    ) by {
                        assert(seen(web, targets[at]) is Ok);
                        assert(target_url(targets[at]) != target_url(targets[index]));
                    }
                    lemma_first_is(world.stored, stops_at(url), index);
                    let after = world.stored.update(index, TargetView { check: found, ..target });
                    assert(after =~= refreshed_before(web, targets, index + 1));
                    let saved = World { stored: after, ..told };
                    let saving = PassView::Saving { targets, index };
                    assert(run(reloading, ActionView::Load, told) == run(
                        saving,
                        ActionView::Save(after),
                        told,
                    ));
                    let onward = turn_to(targets, index + 1);
                    assert(run(saving, ActionView::Save(after), told) == run(
                        onward.0,
                        onward.1,
                        saved,
                    ));
                    lemma_pass_from(targets, index + 1, saved);
                    assert(saved.sent + notices(web, targets, index + 1, end) =~= world.sent
                        + notices(web, targets, index, end));
                }
            },
        }
    }
}

/// The pass from the target at `index` on, where no target from there on has changed.
proof fn lemma_quiet_from(targets: Seq<TargetView>, index: int, world: World)
    requires
        0 <= index <= targets.len(),
        forall|at: int|
            index <= at < targets.len() ==> seen(world.web, #[trigger] targets[at]) == Ok::<
                Seq<char>,
                Seq<char>,
            >(targets[at].check),
    ensures
        ({
            let step = turn_to(targets, index);
            run(step.0, step.1, world) == (world, ActionView::Finish)
        }),
    decreases targets.len() - index,
{
    if index < targets.len() {
        let step = turn_to(targets, index);
        let target = targets[index];
        assert(seen(world.web, target) == Ok::<Seq<char>, Seq<char>>(target.check));
        let url = target_url(target)->Ok_0;
        let paged = next(PassView::Fetching { targets, index }, EventView::Page((world.web)(url)));
        assert(run(step.0, step.1, world) == run(paged.0, paged.1, world));
        lemma_quiet_from(targets, index + 1, world);
    }
}

/// A whole pass over a list of distinct addresses ends where `ending` says.
proof fn lemma_whole_pass(world: World)
    requires
        distinct_addresses(world.stored),
    ensures
        whole_pass(world) == ending(world.stored, 0, world),
{
    let onward = turn_to(world.stored, 0);
    assert(whole_pass(world) == run(onward.0, onward.1, world));
    assert(world.stored =~= refreshed_before(world.web, world.stored, 0));
    lemma_pass_from(world.stored, 0, world);
}

/// A pass over a list of distinct addresses comes to its end exactly when it finds every
/// target's element. It then leaves each stored target with its address and selector and
/// with the markup found, and has sent one message for each target that had changed, in the
/// order of the list, and no other.
pub proof fn lemma_pass_refreshes(world: World)
    requires
        distinct_addresses(world.stored),
    ensures
        ({
            let end = whole_pass(world);
            &&& end.1 is Finish || end.1 is Abort
            &&& end.1 is Finish <==> forall|at: int|
                0 <= at < world.stored.len() ==> seen(world.web, #[trigger] world.stored[at]) is Ok
            &&& end.1 is Finish ==> {
                &&& end.0.stored == refreshed_all(world.web, world.stored)
                &&& end.0.sent == world.sent + notices(
                    world.web,
                    world.stored,
                    0,
                    world.stored.len() as int,
                )
                &&& end.0.web == world.web
            }
        }),
{
    lemma_whole_pass(world);
    lemma_first_from(world.stored, failing(world.web), 0);
    let end = first(world.stored, failing(world.web));
    if end >= world.stored.len() {
        assert forall|at: int| 0 <= at < world.stored.len() implies seen(
            world.web,
            #[trigger] world.stored[at],
        ) is Ok by {
            assert(!failing(world.web)(world.stored[at]));
        }
    } else {
        assert(failing(world.web)(world.stored[end]));
    }
}

/// A pass over a list of distinct addresses that fails at the target at `at`, and at none
/// before it, ends with that target's failure. It leaves the targets before `at` with the
/// markup found and the others as they were, and has sent one message for each target
/// before `at` that had changed, and no other.
pub proof fn lemma_pass_aborts(world: World, at: int)
    requires
        distinct_addresses(world.stored),
        0 <= at < world.stored.len(),
        seen(world.web, world.stored[at]) is Err,
        forall|before: int| 0 <= before < at ==> seen(world.web, #[trigger] world.stored[before]) is Ok,
    ensures
        ({
            let end = whole_pass(world);
            &&& end.1 == ActionView::Abort(seen(world.web, world.stored[at])->Err_0)
            &&& end.0.stored == refreshed_before(world.web, world.stored, at)
            &&& end.0.sent == world.sent + notices(world.web, world.stored, 0, at)
            &&& end.0.web == world.web
        }),
{
    lemma_whole_pass(world);
    lemma_first_is(world.stored, failing(world.web), at);
}

/// A second pass, run after one that came to its end over a list of distinct addresses and
/// with the pages as they were, sends nothing and leaves the stored list as the first pass
/// left it.
pub proof fn lemma_second_pass_is_quiet(world: World)
    requires
        distinct_addresses(world.stored),
    ensures
        ({
            let first = whole_pass(world);
            first.1 is Finish ==> whole_pass(first.0) == (first.0, ActionView::Finish)
        }),
{
    let first = whole_pass(world);
    if first.1 is Finish {
        lemma_pass_refreshes(world);
        let targets = first.0.stored;
        assert forall|at: int| 0 <= at < targets.len() implies seen(
            first.0.web,
            #[trigger] targets[at],
        ) == Ok::<Seq<char>, Seq<char>>(targets[at].check) by {
            assert(seen(world.web, world.stored[at]) is Ok);
            assert(targets[at] == refreshed(world.web, world.stored[at]));
        }
        let onward = turn_to(targets, 0);
        assert(whole_pass(first.0) == run(onward.0, onward.1, first.0));
        lemma_quiet_from(targets, 0, first.0);
    }
}

} // verus!
