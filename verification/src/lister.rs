//! Listing a managed directory.

use crate::layout::Dir;
use crate::listing::numbered_lines;
use crate::protocol::{Action, ActionView, Event, EventView};
use vstd::prelude::*;

verus! {

/// How far a listing has come.
#[derive(Clone, Copy, Debug, PartialEq, Eq)]
pub enum ListPhase {
    /// Nothing has been done yet.
    Start,
    /// The directory is being enumerated.
    Reading,
    /// The lines are being written.
    Printing,
    /// Nothing is left to do.
    Done,
}

/// The step that a listing of `dir` takes in `phase` when `event` arrives.
///
/// The directory is enumerated, the numbered lines of its entries are written,
/// and the listing is over. A directory that could not be opened gives no
/// lines. An event that does not answer the action before it ends the listing.
pub open spec fn list_step(dir: Dir, phase: ListPhase, event: EventView) -> (
    ListPhase,
    ActionView,
) {
    match (phase, event) {
        (ListPhase::Start, EventView::Begin) => (ListPhase::Reading, ActionView::ReadDir(dir)),
        (ListPhase::Reading, EventView::Listing(entries)) => (
            ListPhase::Printing,
            ActionView::Print(numbered_lines(entries)),
        ),
        _ => (ListPhase::Done, ActionView::Finish),
    }
}

/// Takes one step of a listing of `dir`.
fn list(dir: Dir, phase: ListPhase, event: Event) -> (next: (ListPhase, Action))
    ensures
        (next.0, next.1@) == list_step(dir, phase, event@),
{
    match (phase, event) {
        (ListPhase::Start, Event::Begin) => (ListPhase::Reading, Action::ReadDir(dir)),
        (ListPhase::Reading, Event::Listing(listing)) => (
            ListPhase::Printing,
            Action::Print(listing.lines()),
        ),
        _ => (ListPhase::Done, Action::Finish),
    }
}

/// Takes one step of listing the saved configuration files.
pub fn list_configs(phase: ListPhase, event: Event) -> (next: (ListPhase, Action))
    ensures
        (next.0, next.1@) == list_step(Dir::Configs, phase, event@),
{
    list(Dir::Configs, phase, event)
}

/// Takes one step of listing the saved wallpapers.
pub fn list_wallpapers(phase: ListPhase, event: Event) -> (next: (ListPhase, Action))
    ensures
        (next.0, next.1@) == list_step(Dir::Wallpapers, phase, event@),
{
    list(Dir::Wallpapers, phase, event)
}

} // verus!
