//! A pass over the stored targets.
//!
//! A pass looks at every target in turn: it fetches the page, takes the element's markup
//! and, where that differs from the markup last seen, reports the change and records the new
//! markup in the stored list. Fetching, reporting, reading and writing are the driver's
//! work. The pass is therefore a machine: the driver starts it with `Event::Start`, does what
//! each `Action` asks and hands back the event that the action names, until the action is
//! `Finish` or `Abort`.

use vstd::prelude::*;
use crate::expect_pretty::Fatal;
use crate::scrape::{scrape, scrape_outcome};
use crate::store::{update_check, updated};
use crate::target::{notification, send_notif, target_url, views, Target, TargetView};
use crate::url::ParsedUrl;

verus! {

/// What the driver reports to the pass.
#[derive(Debug, PartialEq)]
pub enum Event {
    /// The pass is to begin.
    Start,
    /// The stored list was read, and holds these targets.
    Loaded(Vec<Target>),
    /// The page was fetched, and this is its body.
    Page(String),
    /// The message was sent.
    Sent,
    /// The list was written.
    Saved,
}

/// What the pass asks of the driver.
#[derive(Debug, PartialEq)]
pub enum Action {
    /// Read the stored list, and answer with `Event::Loaded`.
    Load,
    /// Fetch the page at this address, and answer with `Event::Page`.
    Fetch(ParsedUrl),
    /// Send this message, and answer with `Event::Sent`.
    Notify(String),
    /// Write this list in place of the stored one, and answer with `Event::Saved`.
    Save(Vec<Target>),
    /// The pass is over.
    Finish,
    /// The pass has failed.
    Abort(Fatal),
}

/// How far a pass has come. `targets` is the list as it was read when the pass began, and
/// `index` the place in it of the target that is being looked at.
#[derive(Debug, PartialEq)]
pub enum Pass {
    /// Nothing was asked yet.
    Idle,
    /// The list was asked for.
    Loading,
    /// The page of a target was asked for.
    Fetching { targets: Vec<Target>, index: usize },
    /// The element's markup, `found`, differs from the markup last seen, and the message
    /// that says so was handed out.
    Notifying { targets: Vec<Target>, index: usize, found: String },
    /// The message was sent, and the stored list was asked for again.
    Reloading { targets: Vec<Target>, index: usize, found: String },
    /// The list with the new markup was handed out to be written.
    Saving { targets: Vec<Target>, index: usize },
    /// The pass is over, or has failed.
    Finished,
}

/// An event, its texts as sequences of characters.
pub enum EventView {
    Start,
    Loaded(Seq<TargetView>),
    Page(Seq<char>),
    Sent,
    Saved,
}

/// An action, its texts as sequences of characters.
pub enum ActionView {
    Load,
    Fetch(Seq<char>),
    Notify(Seq<char>),
    Save(Seq<TargetView>),
    Finish,
    Abort(Seq<char>),
}

/// A state of the pass, its texts as sequences of characters.
pub enum PassView {
    Idle,
    Loading,
    Fetching { targets: Seq<TargetView>, index: int },
    Notifying { targets: Seq<TargetView>, index: int, found: Seq<char> },
    Reloading { targets: Seq<TargetView>, index: int, found: Seq<char> },
    Saving { targets: Seq<TargetView>, index: int },
    Finished,
}

impl View for Event {
    type V = EventView;

    open spec fn view(&self) -> EventView {
        match *self {
            Event::Start => EventView::Start,
            Event::Loaded(targets) => EventView::Loaded(views(targets@)),
            Event::Page(body) => EventView::Page(body@),
            Event::Sent => EventView::Sent,
            Event::Saved => EventView::Saved,
        }
    }
}

impl View for Action {
    type V = ActionView;

    open spec fn view(&self) -> ActionView {
        match *self {
            Action::Load => ActionView::Load,
            Action::Fetch(url) => ActionView::Fetch(url@),
            Action::Notify(message) => ActionView::Notify(message@),
            Action::Save(targets) => ActionView::Save(views(targets@)),
            Action::Finish => ActionView::Finish,
            Action::Abort(fatal) => ActionView::Abort(fatal@),
        }
    }
}

impl View for Pass {
    type V = PassView;

    open spec fn view(&self) -> PassView {
        match *self {
            Pass::Idle => PassView::Idle,
            Pass::Loading => PassView::Loading,
            Pass::Fetching { targets, index } => PassView::Fetching {
                targets: views(targets@),
                index: index as int,
            },
            Pass::Notifying { targets, index, found } => PassView::Notifying {
                targets: views(targets@),
                index: index as int,
                found: found@,
            },
            Pass::Reloading { targets, index, found } => PassView::Reloading {
                targets: views(targets@),
                index: index as int,
                found: found@,
            },
            Pass::Saving { targets, index } => PassView::Saving {
                targets: views(targets@),
                index: index as int,
            },
            Pass::Finished => PassView::Finished,
        }
    }
}

/// The message for an event that does not answer what the pass asked last.
pub open spec fn out_of_turn() -> Seq<char> {
    "Unexpected event"@
}

/// The step that fails the pass with `message`.
pub open spec fn abort(message: Seq<char>) -> (PassView, ActionView) {
    (PassView::Finished, ActionView::Abort(message))
}

/// The step that turns to the target at `index`: the pass is over where there is none, and
/// fails where the target's address does not parse; otherwise its page is asked for.
pub open spec fn turn_to(targets: Seq<TargetView>, index: int) -> (PassView, ActionView) {
    if index < 0 || index >= targets.len() {
        (PassView::Finished, ActionView::Finish)
    } else {
        match target_url(targets[index]) {
            Ok(url) => (PassView::Fetching { targets, index }, ActionView::Fetch(url)),
            Err(message) => abort(message),
        }
    }
}

/// The step that follows the arrival of a target's page.
pub open spec fn page_step(targets: Seq<TargetView>, index: int, body: Seq<char>) -> (
    PassView,
    ActionView,
) {
    match scrape_outcome(body, targets[index].id) {
        Err(message) => abort(message),
        Ok(found) => if found == targets[index].check {
            turn_to(targets, index + 1)
        } else {
            (
                PassView::Notifying { targets, index, found },
                ActionView::Notify(notification(targets[index])),
            )
        },
    }
}

/// The step that follows the second reading of the list, after a change was reported.
pub open spec fn reload_step(
    targets: Seq<TargetView>,
    index: int,
    found: Seq<char>,
    stored: Seq<TargetView>,
) -> (PassView, ActionView) {
    match updated(stored, targets[index], found) {
        Err(message) => abort(message),
        Ok(after) => (PassView::Saving { targets, index }, ActionView::Save(after)),
    }
}

/// The state that follows `pass` on `event`, and what the driver is to do next. An event
/// that does not answer what the pass asked last fails the pass.
pub open spec fn next(pass: PassView, event: EventView) -> (PassView, ActionView) {
    match (pass, event) {
        (PassView::Idle, EventView::Start) => (PassView::Loading, ActionView::Load),
        (PassView::Loading, EventView::Loaded(targets)) => turn_to(targets, 0),
        (PassView::Fetching { targets, index }, EventView::Page(body)) => if 0 <= index
            < targets.len() {
            page_step(targets, index, body)
        } else {
            abort(out_of_turn())
        },
        (PassView::Notifying { targets, index, found }, EventView::Sent) => (
            PassView::Reloading { targets, index, found },
            ActionView::Load,
        ),
        (PassView::Reloading { targets, index, found }, EventView::Loaded(stored)) => if 0
            <= index < targets.len() {
            reload_step(targets, index, found, stored)
        } else {
            abort(out_of_turn())
        },
        (PassView::Saving { targets, index }, EventView::Saved) => if 0 <= index
            < targets.len() {
            turn_to(targets, index + 1)
        } else {
            abort(out_of_turn())
        },
        _ => abort(out_of_turn()),
    }
}

/// The step for an event that does not answer what the pass asked last.
fn stray() -> (step: (Pass, Action))
    ensures
        (step.0@, step.1@) == abort(out_of_turn()),
{
    (Pass::Finished, Action::Abort(Fatal::new("Unexpected event")))
}

/// Turns to the target at `index`.
fn advance(targets: Vec<Target>, index: usize) -> (step: (Pass, Action))
    ensures
        (step.0@, step.1@) == turn_to(views(targets@), index as int),
{
    if index >= targets.len() {
        (Pass::Finished, Action::Finish)
    } else {
        match targets[index].get_url() {
            Ok(url) => (Pass::Fetching { targets, index }, Action::Fetch(url)),
            Err(fatal) => (Pass::Finished, Action::Abort(fatal)),
        }
    }
}

/// Takes one step of the pass: from the state `pass` and the driver's `event` to the next
/// state and the next thing for the driver to do.
pub fn check(pass: Pass, event: Event) -> (step: (Pass, Action))
    ensures
        (step.0@, step.1@) == next(pass@, event@),
{
    match pass {
        Pass::Idle => match event {
            Event::Start => (Pass::Loading, Action::Load),
            _ => stray(),
        },
        Pass::Loading => match event {
            Event::Loaded(targets) => advance(targets, 0),
            _ => stray(),
        },
        Pass::Fetching { targets, index } => match event {
            Event::Page(body) => {
                if index >= targets.len() {
                    return stray();
                }
                match scrape(body.as_str(), targets[index].id.as_str()) {
                    Err(fatal) => (Pass::Finished, Action::Abort(fatal)),
                    Ok(found) => {
                        if found == targets[index].check {
                            advance(targets, index + 1)
                        } else {
                            let message = send_notif(&targets[index]);
                            (Pass::Notifying { targets, index, found }, Action::Notify(message))
                        }
                    },
                }
            },
            _ => stray(),
        },
        Pass::Notifying { targets, index, found } => match event {
            Event::Sent => (Pass::Reloading { targets, index, found }, Action::Load),
            _ => stray(),
        },
        Pass::Reloading { targets, index, found } => match event {
            Event::Loaded(stored) => {
                if index >= targets.len() {
                    return stray();
                }
                let mut stored = stored;
                match update_check(&mut stored, &targets[index], found) {
                    Err(fatal) => (Pass::Finished, Action::Abort(fatal)),
                    Ok(()) => (Pass::Saving { targets, index }, Action::Save(stored)),
                }
            },
            _ => stray(),
        },
        Pass::Saving { targets, index } => match event {
            Event::Saved => {
                if index >= targets.len() {
                    return stray();
                }
                advance(targets, index + 1)
            },
            _ => stray(),
        },
        Pass::Finished => stray(),
    }
}

} // verus!
