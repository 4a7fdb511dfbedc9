//! What passes between an operation and the caller that performs its actions.
//!
//! The caller opens with [`Event::Begin`]. The operation answers each event
//! with one [`Action`]; the caller performs it and reports what happened in the
//! next [`Event`], until the action is [`Action::Finish`] or [`Action::Abort`].

use crate::layout::{Dir, Place, PlaceView};
use crate::listing::Listing;
use vstd::prelude::*;

verus! {

/// What the caller is asked to do next.
#[derive(Clone, Debug, PartialEq, Eq)]
pub enum Action {
    /// Enumerate the managed directory; answered by [`Event::Listing`].
    ReadDir(Dir),
    /// Look whether the place exists; answered by [`Event::Existence`].
    Exists(Place),
    /// Delete the file; answered by [`Event::Completed`] or [`Event::Failed`].
    Remove(Place),
    /// Create the managed directory and the directories above it as far as
    /// they are missing; answered by [`Event::Completed`] or [`Event::Failed`].
    CreateDirAll(Dir),
    /// Copy the whole contents of `from` to `to`, replacing what `to` held;
    /// answered by [`Event::Completed`] or [`Event::Failed`].
    Copy { from: Place, to: Place },
    /// Write each line to standard output; answered by [`Event::Completed`].
    Print(Vec<String>),
    /// Write the text to standard output, without ending the line, and flush;
    /// answered by [`Event::Completed`] or [`Event::Failed`].
    Prompt(String),
    /// Read one line from standard input; answered by [`Event::Line`] or
    /// [`Event::Failed`].
    ReadLine,
    /// Write the line to standard error; answered by [`Event::Completed`].
    Report(String),
    /// The operation is over; the process ends normally.
    Finish,
    /// The operation cannot go on; the process ends at once with this message.
    Abort(String),
}

/// What an [`Action`] stands for in contracts.
pub enum ActionView {
    ReadDir(Dir),
    Exists(PlaceView),
    Remove(PlaceView),
    CreateDirAll(Dir),
    Copy { from: PlaceView, to: PlaceView },
    Print(Seq<Seq<char>>),
    Prompt(Seq<char>),
    ReadLine,
    Report(Seq<char>),
    Finish,
    Abort(Seq<char>),
}

impl View for Action {
    type V = ActionView;

    open spec fn view(&self) -> ActionView {
        match self {
            Action::ReadDir(dir) => ActionView::ReadDir(*dir),
            Action::Exists(place) => ActionView::Exists(place@),
            Action::Remove(place) => ActionView::Remove(place@),
            Action::CreateDirAll(dir) => ActionView::CreateDirAll(*dir),
            Action::Copy { from, to } => ActionView::Copy { from: from@, to: to@ },
            Action::Print(lines) => ActionView::Print(lines.deep_view()),
            Action::Prompt(text) => ActionView::Prompt(text@),
            Action::ReadLine => ActionView::ReadLine,
            Action::Report(line) => ActionView::Report(line@),
            Action::Finish => ActionView::Finish,
            Action::Abort(message) => ActionView::Abort(message@),
        }
    }
}

impl ActionView {
    /// Whether the action ends the operation.
    pub open spec fn is_last(self) -> bool {
        self is Finish || self is Abort
    }
}

/// What the caller reports after performing an action.
#[derive(Clone, Debug, PartialEq, Eq)]
pub enum Event {
    /// Nothing has been done yet: the operation is to begin.
    Begin,
    /// What enumerating the directory gave.
    Listing(Listing),
    /// Whether the place exists.
    Existence(bool),
    /// The line that was read, with its line ending if it had one.
    Line(String),
    /// The action was performed.
    Completed,
    /// The action failed; the text says why.
    Failed(String),
}

/// What an [`Event`] stands for in contracts.
pub enum EventView {
    Begin,
    Listing(Seq<Option<Seq<char>>>),
    Existence(bool),
    Line(Seq<char>),
    Completed,
    Failed(Seq<char>),
}

impl View for Event {
    type V = EventView;

    open spec fn view(&self) -> EventView {
        match self {
            Event::Begin => EventView::Begin,
            Event::Listing(listing) => EventView::Listing(listing@),
            Event::Existence(found) => EventView::Existence(*found),
            Event::Line(line) => EventView::Line(line@),
            Event::Completed => EventView::Completed,
            Event::Failed(text) => EventView::Failed(text@),
        }
    }
}

/// `prefix` followed by `text`.
pub fn message(prefix: &str, text: &str) -> (line: String)
    ensures
        line@ == prefix@ + text@,
{
    let mut line = String::new();
    line.append(prefix);
    line.append(text);
    line
}

} // verus!
