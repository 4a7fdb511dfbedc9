//! An operation from its launch to its end.

use crate::command::Command;
use crate::layout::Dir;
use crate::lister::{list_configs, list_step, list_wallpapers, ListPhase};
use crate::protocol::{Action, ActionView, Event, EventView};
use crate::selector::{
    select_config, select_config_step, select_wallpaper, select_wallpaper_step, ConfigPhase,
    WallpaperPhase,
};
use crate::setup::{setup_config, setup_config_step, SetupPhase, SetupPhaseView};
use std::path::PathBuf;
use vstd::prelude::*;

verus! {

/// `std::path::PathBuf`, a path of the file system. It is carried through as
/// it is: nothing is known of what it holds.
#[verifier::external_type_specification]
#[verifier::external_body]
pub struct ExPathBuf(PathBuf);

/// `dirs::home_dir` looks the user's home directory up in the process
/// environment and, failing that, in the user database. The answer depends on
/// both, so nothing is claimed of it.
pub assume_specification[ dirs::home_dir ]() -> (home: Option<PathBuf>);

/// The operation that is running, and how far it has come.
#[derive(Clone, Debug, PartialEq, Eq)]
pub enum State {
    /// The saved configuration files are being listed.
    ListConfigs(ListPhase),
    /// A saved configuration file is being selected.
    SelectConfig(ConfigPhase),
    /// The active configuration is being saved.
    Setup(SetupPhase),
    /// The saved wallpapers are being listed.
    ListWallpapers(ListPhase),
    /// A saved wallpaper is being selected.
    SelectWallpaper(WallpaperPhase),
}

/// What a [`State`] stands for in contracts.
pub enum StateView {
    ListConfigs(ListPhase),
    SelectConfig(ConfigPhase),
    Setup(SetupPhaseView),
    ListWallpapers(ListPhase),
    SelectWallpaper(WallpaperPhase),
}

impl View for State {
    type V = StateView;

    open spec fn view(&self) -> StateView {
        match self {
            State::ListConfigs(phase) => StateView::ListConfigs(*phase),
            State::SelectConfig(phase) => StateView::SelectConfig(*phase),
            State::Setup(phase) => StateView::Setup(phase@),
            State::ListWallpapers(phase) => StateView::ListWallpapers(*phase),
            State::SelectWallpaper(phase) => StateView::SelectWallpaper(*phase),
        }
    }
}

impl StateView {
    /// The state in which `command` begins.
    pub open spec fn initial(command: Command) -> StateView {
        match command {
            Command::ListConfigs => StateView::ListConfigs(ListPhase::Start),
            Command::SelectConfig(selected) => StateView::SelectConfig(
                ConfigPhase::Start { selected },
            ),
            Command::Setup => StateView::Setup(SetupPhaseView::Start),
            Command::ListWallpapers => StateView::ListWallpapers(ListPhase::Start),
            Command::SelectWallpaper(selected) => StateView::SelectWallpaper(
                WallpaperPhase::Start { selected },
            ),
        }
    }

    /// The step that the running operation takes when `event` arrives.
    pub open spec fn next(self, event: EventView) -> (StateView, ActionView) {
        match self {
            StateView::ListConfigs(phase) => {
                let (phase, action) = list_step(Dir::Configs, phase, event);
                (StateView::ListConfigs(phase), action)
            },
            StateView::SelectConfig(phase) => {
                let (phase, action) = select_config_step(phase, event);
                (StateView::SelectConfig(phase), action)
            },
            StateView::Setup(phase) => {
                let (phase, action) = setup_config_step(phase, event);
                (StateView::Setup(phase), action)
            },
            StateView::ListWallpapers(phase) => {
                let (phase, action) = list_step(Dir::Wallpapers, phase, event);
                (StateView::ListWallpapers(phase), action)
            },
            StateView::SelectWallpaper(phase) => {
                let (phase, action) = select_wallpaper_step(phase, event);
                (StateView::SelectWallpaper(phase), action)
            },
        }
    }
}

impl State {
    /// Gives the state in which `command` begins.
    pub fn start(command: Command) -> (state: State)
        ensures
            state@ == StateView::initial(command),
    {
        match command {
            Command::ListConfigs => State::ListConfigs(ListPhase::Start),
            Command::SelectConfig(selected) => State::SelectConfig(ConfigPhase::Start { selected }),
            Command::Setup => State::Setup(SetupPhase::Start),
            Command::ListWallpapers => State::ListWallpapers(ListPhase::Start),
            Command::SelectWallpaper(selected) => State::SelectWallpaper(
                WallpaperPhase::Start { selected },
            ),
        }
    }

    /// Takes one step of the running operation.
    pub fn step(self, event: Event) -> (next: (State, Action))
        ensures
            (next.0@, next.1@) == self@.next(event@),
    {
        match self {
            State::ListConfigs(phase) => {
                let (phase, action) = list_configs(phase, event);
                (State::ListConfigs(phase), action)
            },
            State::SelectConfig(phase) => {
                let (phase, action) = select_config(phase, event);
                (State::SelectConfig(phase), action)
            },
            State::Setup(phase) => {
                let (phase, action) = setup_config(phase, event);
                (State::Setup(phase), action)
            },
            State::ListWallpapers(phase) => {
                let (phase, action) = list_wallpapers(phase, event);
                (State::ListWallpapers(phase), action)
            },
            State::SelectWallpaper(phase) => {
                let (phase, action) = select_wallpaper(phase, event);
                (State::SelectWallpaper(phase), action)
            },
        }
    }
}

/// How the launch of an operation went.
#[derive(Debug)]
pub enum Launch {
    /// The operation can begin in `state`; the places that its actions name
    /// lie below `home`.
    Started { home: PathBuf, state: State },
    /// The operation cannot begin; the process ends at once with this message.
    Aborted { message: String },
}

/// Whether `launch` is how the launch of `command` goes where looking for the
/// home directory has given `home`.
pub open spec fn launched(command: Command, home: Option<PathBuf>, launch: Launch) -> bool {
    match home {
        Some(dir) => launch matches Launch::Started { home, state } && home == dir && state@
            == StateView::initial(command),
        None => launch matches Launch::Aborted { message } && message@
            == "Failed to determine home directory"@,
    }
}

/// Launches `command`, given what looking for the home directory has found.
pub fn launch_in(command: Command, home: Option<PathBuf>) -> (launch: Launch)
    ensures
        launched(command, home, launch),
{
    match home {
        Some(dir) => Launch::Started { home: dir, state: State::start(command) },
        None => Launch::Aborted {
            message: String::from_str("Failed to determine home directory"),
        },
    }
}

/// Launches `command` below the home directory of the user who runs the
/// process.
pub fn launch(command: Command) -> (launch: Launch)
    ensures
        exists|home: Option<PathBuf>| launched(command, home, launch),
{
    let home = dirs::home_dir();
    launch_in(command, home)
}

} // verus!
