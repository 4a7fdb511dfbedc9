//! Saving the active configuration under a name that the user types.

use crate::layout::{Dir, Place, PlaceView, Slot};
use crate::protocol::{message, Action, ActionView, Event, EventView};
use crate::text::{is_file_name, is_name, trim, trimmed};
use vstd::prelude::*;

verus! {

/// How far the setup has come.
#[derive(Clone, Debug, PartialEq, Eq)]
pub enum SetupPhase {
    /// Nothing has been done yet.
    Start,
    /// The directory of saved configurations is being looked for.
    Probing,
    /// The directory of saved configurations is being created.
    Creating,
    /// The user is being asked for a name.
    Prompting,
    /// The user's answer is being read.
    Reading,
    /// A saved configuration called `name` is being looked for.
    Checking { name: String },
    /// The active configuration is being copied.
    Copying,
    /// A failure is being reported.
    Reporting,
    /// Nothing is left to do.
    Done,
}

/// What a [`SetupPhase`] stands for in contracts.
pub enum SetupPhaseView {
    Start,
    Probing,
    Creating,
    Prompting,
    Reading,
    Checking { name: Seq<char> },
    Copying,
    Reporting,
    Done,
}

impl View for SetupPhase {
    type V = SetupPhaseView;

    open spec fn view(&self) -> SetupPhaseView {
        match self {
            SetupPhase::Start => SetupPhaseView::Start,
            SetupPhase::Probing => SetupPhaseView::Probing,
            SetupPhase::Creating => SetupPhaseView::Creating,
            SetupPhase::Prompting => SetupPhaseView::Prompting,
            SetupPhase::Reading => SetupPhaseView::Reading,
            SetupPhase::Checking { name } => SetupPhaseView::Checking { name: name@ },
            SetupPhase::Copying => SetupPhaseView::Copying,
            SetupPhase::Reporting => SetupPhaseView::Reporting,
            SetupPhase::Done => SetupPhaseView::Done,
        }
    }
}

/// The step that asks the user for a name.
pub open spec fn ask_name() -> (SetupPhaseView, ActionView) {
    (SetupPhaseView::Prompting, ActionView::Prompt("Enter a name for the current config: "@))
}

/// The step that reports why the active configuration is not copied.
pub open spec fn refuse_copy(reason: Seq<char>) -> (SetupPhaseView, ActionView) {
    (SetupPhaseView::Reporting, ActionView::Report("Error copying config file: "@ + reason))
}

/// The step that follows the user's answer `line`.
///
/// The name is the answer less the white space around it. A name that cannot
/// name a file in a directory is refused; for any other, the saved
/// configuration of that name is looked for.
pub open spec fn name_step(line: Seq<char>) -> (SetupPhaseView, ActionView) {
    let name = trimmed(line);
    if is_file_name(name) {
        (SetupPhaseView::Checking { name }, ActionView::Exists(PlaceView::Saved { name }))
    } else {
        refuse_copy("the name is not a file name"@)
    }
}

/// The step that the setup takes in `phase` when `event` arrives.
///
/// The directory of saved configurations is created if it is missing; where
/// that fails, the failure is reported and nothing more is done. Then the user
/// is asked for a name and one line is read. Where the name cannot name a
/// file, or a saved configuration of that name exists already, the copy is
/// refused and that is reported. Otherwise the active configuration is copied
/// to the file of that name in the directory of saved configurations; a
/// failure to copy is reported. Where the question cannot be written or the
/// answer cannot be read, the setup is aborted. An event that does not answer
/// the action before it ends the setup.
pub open spec fn setup_config_step(phase: SetupPhaseView, event: EventView) -> (
    SetupPhaseView,
    ActionView,
) {
    match (phase, event) {
        (SetupPhaseView::Start, EventView::Begin) => (
            SetupPhaseView::Probing,
            ActionView::Exists(PlaceView::Managed(Dir::Configs)),
        ),
        (SetupPhaseView::Probing, EventView::Existence(found)) => if found {
            ask_name()
        } else {
            (SetupPhaseView::Creating, ActionView::CreateDirAll(Dir::Configs))
        },
        (SetupPhaseView::Creating, EventView::Completed) => ask_name(),
        (SetupPhaseView::Creating, EventView::Failed(text)) => (
            SetupPhaseView::Reporting,
            ActionView::Report("Error creating config files directory: "@ + text),
        ),
        (SetupPhaseView::Prompting, EventView::Completed) => (
            SetupPhaseView::Reading,
            ActionView::ReadLine,
        ),
        (SetupPhaseView::Prompting, EventView::Failed(text)) => (
            SetupPhaseView::Done,
            ActionView::Abort(text),
        ),
        (SetupPhaseView::Reading, EventView::Line(line)) => name_step(line),
        (SetupPhaseView::Reading, EventView::Failed(text)) => (
            SetupPhaseView::Done,
            ActionView::Abort("Failed to read input: "@ + text),
        ),
        (SetupPhaseView::Checking { name }, EventView::Existence(found)) => if found {
            refuse_copy("a saved configuration of that name exists"@)
        } else {
            (
                SetupPhaseView::Copying,
                ActionView::Copy {
                    from: PlaceView::Active(Slot::Config),
                    to: PlaceView::Saved { name },
                },
            )
        },
        (SetupPhaseView::Copying, EventView::Failed(text)) => refuse_copy(text),
        _ => (SetupPhaseView::Done, ActionView::Finish),
    }
}

/// Asks the user for a name.
fn ask() -> (next: (SetupPhase, Action))
    ensures
        (next.0@, next.1@) == ask_name(),
{
    (
        SetupPhase::Prompting,
        Action::Prompt(String::from_str("Enter a name for the current config: ")),
    )
}

/// Reports why the active configuration is not copied.
fn refuse(reason: &str) -> (next: (SetupPhase, Action))
    ensures
        (next.0@, next.1@) == refuse_copy(reason@),
{
    (SetupPhase::Reporting, Action::Report(message("Error copying config file: ", reason)))
}

/// Takes the name from the user's answer and looks for a saved configuration
/// of that name.
fn check_name(line: &str) -> (next: (SetupPhase, Action))
    ensures
        (next.0@, next.1@) == name_step(line@),
{
    let name = trim(line);
    if is_name(name.as_str()) {
        (SetupPhase::Checking { name: name.clone() }, Action::Exists(Place::Saved { name }))
    } else {
        refuse("the name is not a file name")
    }
}

/// Takes one step of the setup.
pub fn setup_config(phase: SetupPhase, event: Event) -> (next: (SetupPhase, Action))
    ensures
        (next.0@, next.1@) == setup_config_step(phase@, event@),
{
    match (phase, event) {
        (SetupPhase::Start, Event::Begin) => (
            SetupPhase::Probing,
            Action::Exists(Place::Managed(Dir::Configs)),
        ),
        (SetupPhase::Probing, Event::Existence(found)) => if found {
            ask()
        } else {
            (SetupPhase::Creating, Action::CreateDirAll(Dir::Configs))
        },
        (SetupPhase::Creating, Event::Completed) => ask(),
        (SetupPhase::Creating, Event::Failed(text)) => (
            SetupPhase::Reporting,
            Action::Report(message("Error creating config files directory: ", text.as_str())),
        ),
        (SetupPhase::Prompting, Event::Completed) => (SetupPhase::Reading, Action::ReadLine),
        (SetupPhase::Prompting, Event::Failed(text)) => (SetupPhase::Done, Action::Abort(text)),
        (SetupPhase::Reading, Event::Line(line)) => check_name(line.as_str()),
        (SetupPhase::Reading, Event::Failed(text)) => (
            SetupPhase::Done,
            Action::Abort(message("Failed to read input: ", text.as_str())),
        ),
        (SetupPhase::Checking { name }, Event::Existence(found)) => if found {
            refuse("a saved configuration of that name exists")
        } else {
            (
                SetupPhase::Copying,
                Action::Copy { from: Place::Active(Slot::Config), to: Place::Saved { name } },
            )
        },
        (SetupPhase::Copying, Event::Failed(text)) => refuse(text.as_str()),
        _ => (SetupPhase::Done, Action::Finish),
    }
}

} // verus!
