//! Selecting a saved configuration file or wallpaper by its number.

use crate::layout::{Dir, Place, PlaceView, Slot};
use crate::listing::chosen;
use crate::protocol::{message, Action, ActionView, Event, EventView};
use vstd::prelude::*;

verus! {

/// How far the selection of a configuration file has come.
#[derive(Clone, Copy, Debug, PartialEq, Eq)]
pub enum ConfigPhase {
    /// Nothing has been done yet; `selected` is the number given, counted
    /// from one.
    Start { selected: usize },
    /// The directory is being enumerated.
    Reading { selected: usize },
    /// The selected entry is being copied to the active slot.
    Copying,
    /// A failure is being reported.
    Reporting,
    /// Nothing is left to do.
    Done,
}

/// How far the selection of a wallpaper has come.
#[derive(Clone, Copy, Debug, PartialEq, Eq)]
pub enum WallpaperPhase {
    /// Nothing has been done yet; `selected` is the number given, counted
    /// from one.
    Start { selected: usize },
    /// The directory is being enumerated.
    Reading { selected: usize },
    /// The active wallpaper is being looked for; `choice` is the position of
    /// the selected entry, if there is one.
    Probing { choice: Option<usize> },
    /// The active wallpaper is being deleted.
    Removing { choice: Option<usize> },
    /// The failure to delete the active wallpaper is being reported.
    ReportingRemoval { choice: Option<usize> },
    /// The selected entry is being copied to the active slot.
    Copying,
    /// The failure to copy is being reported.
    Reporting,
    /// Nothing is left to do.
    Done,
}

/// The action that copies the entry at `position` of `dir` to the slot that
/// the directory feeds.
pub open spec fn activation(dir: Dir, position: nat) -> ActionView {
    ActionView::Copy {
        from: PlaceView::Entry { dir, position },
        to: PlaceView::Active(dir.feeds()),
    }
}

/// The step that the selection of a configuration file takes in `phase` when
/// `event` arrives.
///
/// The directory is enumerated. Where the number picks an entry, the entry is
/// copied to the active configuration; a failure to copy is reported. Where it
/// picks none, nothing more is done. An event that does not answer the action
/// before it ends the selection.
pub open spec fn select_config_step(phase: ConfigPhase, event: EventView) -> (
    ConfigPhase,
    ActionView,
) {
    match (phase, event) {
        (ConfigPhase::Start { selected }, EventView::Begin) => (
            ConfigPhase::Reading { selected },
            ActionView::ReadDir(Dir::Configs),
        ),
        (ConfigPhase::Reading { selected }, EventView::Listing(entries)) => match chosen(
            entries,
            selected as nat,
        ) {
            Some(position) => (ConfigPhase::Copying, activation(Dir::Configs, position)),
            None => (ConfigPhase::Done, ActionView::Finish),
        },
        (ConfigPhase::Copying, EventView::Failed(text)) => (
            ConfigPhase::Reporting,
            ActionView::Report("Error copying config file: "@ + text),
        ),
        _ => (ConfigPhase::Done, ActionView::Finish),
    }
}

/// Takes one step of selecting a configuration file.
pub fn select_config(phase: ConfigPhase, event: Event) -> (next: (ConfigPhase, Action))
    ensures
        (next.0, next.1@) == select_config_step(phase, event@),
{
    match (phase, event) {
        (ConfigPhase::Start { selected }, Event::Begin) => (
            ConfigPhase::Reading { selected },
            Action::ReadDir(Dir::Configs),
        ),
        (ConfigPhase::Reading { selected }, Event::Listing(listing)) => match listing.select(
            selected,
        ) {
            Some(position) => (
                ConfigPhase::Copying,
                Action::Copy {
                    from: Place::Entry { dir: Dir::Configs, position },
                    to: Place::Active(Slot::Config),
                },
            ),
            None => (ConfigPhase::Done, Action::Finish),
        },
        (ConfigPhase::Copying, Event::Failed(text)) => (
            ConfigPhase::Reporting,
            Action::Report(message("Error copying config file: ", text.as_str())),
        ),
        _ => (ConfigPhase::Done, Action::Finish),
    }
}

/// What the selection of a wallpaper does once the old wallpaper is out of the
/// way: it copies the selected entry, if there is one.
pub open spec fn replacement(choice: Option<usize>) -> (WallpaperPhase, ActionView) {
    match choice {
        Some(position) => (WallpaperPhase::Copying, activation(Dir::Wallpapers, position as nat)),
        None => (WallpaperPhase::Done, ActionView::Finish),
    }
}

/// The step that the selection of a wallpaper takes in `phase` when `event`
/// arrives.
///
/// The directory is enumerated. Whatever the number picks, the active
/// wallpaper is deleted if there is one; a failure to delete it is reported
/// and does not stop the selection. Then the entry that the number picks is
/// copied to the active wallpaper, and a failure to copy is reported; where
/// the number picks none, nothing is copied. An event that does not answer the
/// action before it ends the selection.
pub open spec fn select_wallpaper_step(phase: WallpaperPhase, event: EventView) -> (
    WallpaperPhase,
    ActionView,
) {
    match (phase, event) {
        (WallpaperPhase::Start { selected }, EventView::Begin) => (
            WallpaperPhase::Reading { selected },
            ActionView::ReadDir(Dir::Wallpapers),
        ),
        (WallpaperPhase::Reading { selected }, EventView::Listing(entries)) => (
            WallpaperPhase::Probing {
                choice: match chosen(entries, selected as nat) {
                    Some(position) => Some(position as usize),
                    None => None,
                },
            },
            ActionView::Exists(PlaceView::Active(Slot::Wallpaper)),
        ),
        (WallpaperPhase::Probing { choice }, EventView::Existence(found)) => if found {
            (
                WallpaperPhase::Removing { choice },
                ActionView::Remove(PlaceView::Active(Slot::Wallpaper)),
            )
        } else {
            replacement(choice)
        },
        (WallpaperPhase::Removing { choice }, EventView::Completed) => replacement(choice),
        (WallpaperPhase::Removing { choice }, EventView::Failed(text)) => (
            WallpaperPhase::ReportingRemoval { choice },
            ActionView::Report("Error deleting old wallpaper: "@ + text),
        ),
        (WallpaperPhase::ReportingRemoval { choice }, EventView::Completed) => replacement(choice),
        (WallpaperPhase::Copying, EventView::Failed(text)) => (
            WallpaperPhase::Reporting,
            ActionView::Report("Error copying wallpaper: "@ + text),
        ),
        _ => (WallpaperPhase::Done, ActionView::Finish),
    }
}

/// Copies the selected wallpaper, if there is one.
fn replace(choice: Option<usize>) -> (next: (WallpaperPhase, Action))
    ensures
        (next.0, next.1@) == replacement(choice),
{
    match choice {
        Some(position) => (
            WallpaperPhase::Copying,
            Action::Copy {
                from: Place::Entry { dir: Dir::Wallpapers, position },
                to: Place::Active(Slot::Wallpaper),
            },
        ),
        None => (WallpaperPhase::Done, Action::Finish),
    }
}

/// Takes one step of selecting a wallpaper.
pub fn select_wallpaper(phase: WallpaperPhase, event: Event) -> (next: (WallpaperPhase, Action))
    ensures
        (next.0, next.1@) == select_wallpaper_step(phase, event@),
{
    match (phase, event) {
        (WallpaperPhase::Start { selected }, Event::Begin) => (
            WallpaperPhase::Reading { selected },
            Action::ReadDir(Dir::Wallpapers),
        ),
        (WallpaperPhase::Reading { selected }, Event::Listing(listing)) => (
            WallpaperPhase::Probing { choice: listing.select(selected) },
            Action::Exists(Place::Active(Slot::Wallpaper)),
        ),
        (WallpaperPhase::Probing { choice }, Event::Existence(found)) => if found {
            (WallpaperPhase::Removing { choice }, Action::Remove(Place::Active(Slot::Wallpaper)))
        } else {
            replace(choice)
        },
        (WallpaperPhase::Removing { choice }, Event::Completed) => replace(choice),
        (WallpaperPhase::Removing { choice }, Event::Failed(text)) => (
            WallpaperPhase::ReportingRemoval { choice },
            Action::Report(message("Error deleting old wallpaper: ", text.as_str())),
        ),
        (WallpaperPhase::ReportingRemoval { choice }, Event::Completed) => replace(choice),
        (WallpaperPhase::Copying, Event::Failed(text)) => (
            WallpaperPhase::Reporting,
            Action::Report(message("Error copying wallpaper: ", text.as_str())),
        ),
        _ => (WallpaperPhase::Done, Action::Finish),
    }
}

} // verus!
