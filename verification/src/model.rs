//! What an operation brings about, followed through on an idealised world.
//!
//! The world of this module does what each action is named for and nothing
//! else. An action fails where it is refused or where what it is to work on
//! is missing, and then changes nothing. An entry of a directory is told by
//! its position in the enumeration, which is taken once, before the
//! operation changes anything; a saved configuration is also told by its
//! name. The laws below say what each operation hands out and leaves behind
//! in such a world.

use crate::command::Command;
use crate::layout::{Dir, PlaceView, Slot};
use crate::lister::ListPhase;
use crate::listing::{chosen, law_lines_number_every_entry, numbered_lines};
use crate::machine::StateView;
use crate::protocol::{ActionView, EventView};
use crate::selector::{activation, ConfigPhase, WallpaperPhase};
use crate::setup::SetupPhaseView;
use crate::text::{decimal, is_file_name, trimmed};
use vstd::prelude::*;

verus! {

/// The surroundings of an operation.
pub struct World {
    /// The managed directories that exist, each with its entries in the order
    /// of enumeration.
    pub dirs: Map<Dir, Seq<Option<Seq<char>>>>,
    /// The files that exist, each with the bytes it holds.
    pub files: Map<PlaceView, Seq<u8>>,
    /// The actions that are refused, for want of a permission, say.
    pub refused: Set<ActionView>,
    /// The text that tells why an action failed.
    pub fault: Seq<char>,
    /// The line that standard input gives.
    pub input: Seq<char>,
    /// What has been written to standard output, piece by piece.
    pub output: Seq<Seq<char>>,
    /// The lines that have been written to standard error.
    pub errors: Seq<Seq<char>>,
}

impl World {
    /// The entries of `dir`; none where the directory is missing.
    pub open spec fn entries(self, dir: Dir) -> Seq<Option<Seq<char>>> {
        if self.dirs.dom().contains(dir) {
            self.dirs[dir]
        } else {
            Seq::empty()
        }
    }

    /// Whether `place` exists.
    pub open spec fn holds(self, place: PlaceView) -> bool {
        match place {
            PlaceView::Managed(dir) => self.dirs.dom().contains(dir),
            _ => self.files.dom().contains(place),
        }
    }

    /// Whether the world hangs together: every entry of a managed directory
    /// that can be read is a file, and an entry of the directory of saved
    /// configurations is the saved configuration of its name.
    pub open spec fn consistent(self) -> bool {
        &&& forall|dir: Dir, position: int|
            0 <= position < self.entries(dir).len() && (#[trigger] self.entries(dir)[position])
                is Some ==> self.files.dom().contains(
                PlaceView::Entry { dir, position: position as nat },
            )
        &&& forall|position: int|
            0 <= position < self.entries(Dir::Configs).len() && (#[trigger] self.entries(
                Dir::Configs,
            )[position]) is Some ==> {
                let saved = PlaceView::Saved { name: self.entries(Dir::Configs)[position]->0 };
                let entry = PlaceView::Entry { dir: Dir::Configs, position: position as nat };
                self.files.dom().contains(saved) && self.files[saved] == self.files[entry]
            }
    }

    /// Whether `action` fails: it is refused, or what it is to work on is
    /// missing. Looking, enumerating and writing to a stream never fail, and
    /// a directory that exists need not be created.
    pub open spec fn fails(self, action: ActionView) -> bool {
        match action {
            ActionView::Remove(place) => self.refused.contains(action)
                || !self.files.dom().contains(place),
            ActionView::Copy { from, to } => self.refused.contains(action)
                || !self.files.dom().contains(from),
            ActionView::CreateDirAll(dir) => self.refused.contains(action)
                && !self.dirs.dom().contains(dir),
            ActionView::Prompt(_) | ActionView::ReadLine => self.refused.contains(action),
            _ => false,
        }
    }

    /// The world after `action` is performed with success.
    pub open spec fn after(self, action: ActionView) -> World {
        match action {
            ActionView::Remove(place) => World { files: self.files.remove(place), ..self },
            ActionView::CreateDirAll(dir) => World {
                dirs: self.dirs.insert(dir, self.entries(dir)),
                ..self
            },
            ActionView::Copy { from, to } => World {
                files: self.files.insert(to, self.files[from]),
                ..self
            },
            ActionView::Print(lines) => World { output: self.output + lines, ..self },
            ActionView::Prompt(text) => World { output: self.output.push(text), ..self },
            ActionView::Report(line) => World { errors: self.errors.push(line), ..self },
            _ => self,
        }
    }

    /// The world after `action` is tried, and the event that reports how it
    /// went. An action that fails changes nothing.
    pub open spec fn react(self, action: ActionView) -> (World, EventView) {
        if self.fails(action) {
            (self, EventView::Failed(self.fault))
        } else {
            (
                self.after(action),
                match action {
                    ActionView::ReadDir(dir) => EventView::Listing(self.entries(dir)),
                    ActionView::Exists(place) => EventView::Existence(self.holds(place)),
                    ActionView::ReadLine => EventView::Line(self.input),
                    _ => EventView::Completed,
                },
            )
        }
    }
}

/// The most actions that an operation in `state` still hands out before its
/// last one.
pub open spec fn remaining(state: StateView) -> nat {
    match state {
        StateView::ListConfigs(phase) | StateView::ListWallpapers(phase) => match phase {
            ListPhase::Start => 2,
            ListPhase::Reading => 1,
            ListPhase::Printing => 0,
            ListPhase::Done => 0,
        },
        StateView::SelectConfig(phase) => match phase {
            ConfigPhase::Start { .. } => 3,
            ConfigPhase::Reading { .. } => 2,
            ConfigPhase::Copying => 1,
            ConfigPhase::Reporting => 0,
            ConfigPhase::Done => 0,
        },
        StateView::SelectWallpaper(phase) => match phase {
            WallpaperPhase::Start { .. } => 6,
            WallpaperPhase::Reading { .. } => 5,
            WallpaperPhase::Probing { .. } => 4,
            WallpaperPhase::Removing { .. } => 3,
            WallpaperPhase::ReportingRemoval { .. } => 2,
            WallpaperPhase::Copying => 1,
            WallpaperPhase::Reporting => 0,
            WallpaperPhase::Done => 0,
        },
        StateView::Setup(phase) => match phase {
            SetupPhaseView::Start => 7,
            SetupPhaseView::Probing => 6,
            SetupPhaseView::Creating => 5,
            SetupPhaseView::Prompting => 4,
            SetupPhaseView::Reading => 3,
            SetupPhaseView::Checking { .. } => 2,
            SetupPhaseView::Copying => 1,
            SetupPhaseView::Reporting => 0,
            SetupPhaseView::Done => 0,
        },
    }
}

/// Whatever event arrives, the action that answers it is the last one, or the
/// operation has come closer to its end.
pub proof fn law_every_step_nears_the_end(state: StateView, event: EventView)
    ensures
        state.next(event).1.is_last() || remaining(state.next(event).0) < remaining(state),
{
}

/// The world in which an operation in `state` leaves `world` when `event`
/// arrives, and the actions that it hands out on the way, the last one
/// included. At most `steps` actions are performed.
pub open spec fn run(state: StateView, event: EventView, world: World, steps: nat) -> (
    World,
    Seq<ActionView>,
)
    decreases steps,
{
    let (next, action) = state.next(event);
    if steps == 0 || action.is_last() {
        (world, seq![action])
    } else {
        let (changed, answer) = world.react(action);
        let (last, actions) = run(next, answer, changed, (steps - 1) as nat);
        (last, seq![action] + actions)
    }
}

/// The world in which `command` leaves `world`.
pub open spec fn outcome(command: Command, world: World) -> World {
    let start = StateView::initial(command);
    run(start, EventView::Begin, world, remaining(start)).0
}

/// The actions that `command` hands out in `world`, in order.
pub open spec fn trace(command: Command, world: World) -> Seq<ActionView> {
    let start = StateView::initial(command);
    run(start, EventView::Begin, world, remaining(start)).1
}

/// A run that may perform as many actions as the operation has left ends
/// with a last action.
proof fn lemma_run_ends(state: StateView, event: EventView, world: World, steps: nat)
    requires
        remaining(state) <= steps,
    ensures
        run(state, event, world, steps).1.len() > 0,
        run(state, event, world, steps).1.last().is_last(),
    decreases steps,
{
    let (next, action) = state.next(event);
    law_every_step_nears_the_end(state, event);
    if steps == 0 || action.is_last() {
    } else {
        let (changed, answer) = world.react(action);
        lemma_run_ends(next, answer, changed, (steps - 1) as nat);
    }
}

/// Every operation comes to an end: the actions that it hands out close with
/// [`ActionView::Finish`] or [`ActionView::Abort`].
pub proof fn law_every_operation_ends(command: Command, world: World)
    ensures
        trace(command, world).len() > 0,
        trace(command, world).last().is_last(),
{
    lemma_run_ends(
        StateView::initial(command),
        EventView::Begin,
        world,
        remaining(StateView::initial(command)),
    );
}

/// The command that lists `dir`.
pub open spec fn listing_of(dir: Dir) -> Command {
    match dir {
        Dir::Configs => Command::ListConfigs,
        Dir::Wallpapers => Command::ListWallpapers,
    }
}

/// Listing a directory writes the numbered lines of its entries to standard
/// output and changes nothing else. Where every entry can be read, that is
/// one line for each entry, in the order of enumeration, numbered from one
/// upwards.
pub proof fn law_listing_shows_every_entry(dir: Dir, world: World)
    ensures
        trace(listing_of(dir), world) == seq![
            ActionView::ReadDir(dir),
            ActionView::Print(numbered_lines(world.entries(dir))),
            ActionView::Finish,
        ],
        outcome(listing_of(dir), world) == (World {
            output: world.output + numbered_lines(world.entries(dir)),
            ..world
        }),
        (forall|k: int| 0 <= k < world.entries(dir).len() ==> (#[trigger] world.entries(dir)[k])
            is Some) ==> {
            &&& numbered_lines(world.entries(dir)).len() == world.entries(dir).len()
            &&& forall|k: int|
                0 <= k < world.entries(dir).len() ==> #[trigger] numbered_lines(
                    world.entries(dir),
                )[k] == decimal((k + 1) as nat) + ". "@ + world.entries(dir)[k]->0
        },
{
    reveal_with_fuel(run, 4);
    let command = listing_of(dir);
    assert(trace(command, world) =~= seq![
        ActionView::ReadDir(dir),
        ActionView::Print(numbered_lines(world.entries(dir))),
        ActionView::Finish,
    ]);
    if forall|k: int| 0 <= k < world.entries(dir).len() ==> (#[trigger] world.entries(dir)[k])
        is Some {
        law_lines_number_every_entry(world.entries(dir));
    }
}

/// The line that reports the failure of an action in `world`.
pub open spec fn complaint(prefix: Seq<char>, world: World) -> ActionView {
    ActionView::Report(prefix + world.fault)
}

/// Selecting a configuration file by a number that picks an entry copies
/// that entry to the active configuration: unless the copy is refused, the
/// active configuration afterwards holds the bytes of the entry, and nothing
/// else has changed.
pub proof fn law_select_config_activates_the_entry(selected: usize, world: World)
    requires
        world.consistent(),
        chosen(world.entries(Dir::Configs), selected as nat) is Some,
        !world.refused.contains(activation(Dir::Configs, (selected - 1) as nat)),
    ensures
        trace(Command::SelectConfig(selected), world) == seq![
            ActionView::ReadDir(Dir::Configs),
            activation(Dir::Configs, (selected - 1) as nat),
            ActionView::Finish,
        ],
        outcome(Command::SelectConfig(selected), world) == (World {
            files: world.files.insert(
                PlaceView::Active(Slot::Config),
                world.files[PlaceView::Entry {
                    dir: Dir::Configs,
                    position: (selected - 1) as nat,
                }],
            ),
            ..world
        }),
        outcome(Command::SelectConfig(selected), world).files[PlaceView::Active(Slot::Config)]
            == world.files[PlaceView::Entry { dir: Dir::Configs, position: (selected - 1) as nat }],
{
    reveal_with_fuel(run, 4);
    let entries = world.entries(Dir::Configs);
    assert(entries[selected - 1] is Some);
    assert(trace(Command::SelectConfig(selected), world) =~= seq![
        ActionView::ReadDir(Dir::Configs),
        activation(Dir::Configs, (selected - 1) as nat),
        ActionView::Finish,
    ]);
}

/// Where the copy of the selected configuration file fails, the failure is
/// reported on standard error and nothing else has changed.
pub proof fn law_select_config_reports_a_failed_copy(selected: usize, world: World)
    requires
        chosen(world.entries(Dir::Configs), selected as nat) is Some,
        world.fails(activation(Dir::Configs, (selected - 1) as nat)),
    ensures
        trace(Command::SelectConfig(selected), world) == seq![
            ActionView::ReadDir(Dir::Configs),
            activation(Dir::Configs, (selected - 1) as nat),
            complaint("Error copying config file: "@, world),
            ActionView::Finish,
        ],
        outcome(Command::SelectConfig(selected), world) == (World {
            errors: world.errors.push("Error copying config file: "@ + world.fault),
            ..world
        }),
{
    reveal_with_fuel(run, 4);
    assert(trace(Command::SelectConfig(selected), world) =~= seq![
        ActionView::ReadDir(Dir::Configs),
        activation(Dir::Configs, (selected - 1) as nat),
        complaint("Error copying config file: "@, world),
        ActionView::Finish,
    ]);
}

/// Selecting a configuration file by a number that picks no entry changes
/// nothing: the active configuration is as it was.
pub proof fn law_select_config_out_of_range_changes_nothing(selected: usize, world: World)
    requires
        chosen(world.entries(Dir::Configs), selected as nat) is None,
    ensures
        trace(Command::SelectConfig(selected), world) == seq![
            ActionView::ReadDir(Dir::Configs),
            ActionView::Finish,
        ],
        outcome(Command::SelectConfig(selected), world) == world,
{
    reveal_with_fuel(run, 4);
    assert(trace(Command::SelectConfig(selected), world) =~= seq![
        ActionView::ReadDir(Dir::Configs),
        ActionView::Finish,
    ]);
}

/// The actions with which the selection of a wallpaper opens: it enumerates
/// the directory and looks for the active wallpaper; if that is there, it
/// deletes it, and reports the failure where it cannot.
pub open spec fn wallpaper_clearing(world: World) -> Seq<ActionView> {
    let active = PlaceView::Active(Slot::Wallpaper);
    let looking = seq![ActionView::ReadDir(Dir::Wallpapers), ActionView::Exists(active)];
    if !world.holds(active) {
        looking
    } else if world.fails(ActionView::Remove(active)) {
        looking + seq![
            ActionView::Remove(active),
            complaint("Error deleting old wallpaper: "@, world),
        ]
    } else {
        looking + seq![ActionView::Remove(active)]
    }
}

/// The world in which those actions leave `world`.
pub open spec fn wallpaper_cleared(world: World) -> World {
    let active = PlaceView::Active(Slot::Wallpaper);
    if !world.holds(active) {
        world
    } else if world.fails(ActionView::Remove(active)) {
        World {
            errors: world.errors.push("Error deleting old wallpaper: "@ + world.fault),
            ..world
        }
    } else {
        World { files: world.files.remove(active), ..world }
    }
}

/// Selecting a wallpaper by a number that picks an entry first deletes the
/// active wallpaper, if there is one, and then copies the entry to it, also
/// where the deletion failed: unless the copy is refused, the active
/// wallpaper afterwards holds the bytes of the entry.
pub proof fn law_select_wallpaper_replaces_the_old_one(selected: usize, world: World)
    requires
        world.consistent(),
        chosen(world.entries(Dir::Wallpapers), selected as nat) is Some,
        !world.refused.contains(activation(Dir::Wallpapers, (selected - 1) as nat)),
    ensures
        trace(Command::SelectWallpaper(selected), world) == wallpaper_clearing(world) + seq![
            activation(Dir::Wallpapers, (selected - 1) as nat),
            ActionView::Finish,
        ],
        outcome(Command::SelectWallpaper(selected), world) == (World {
            files: world.files.insert(
                PlaceView::Active(Slot::Wallpaper),
                world.files[PlaceView::Entry {
                    dir: Dir::Wallpapers,
                    position: (selected - 1) as nat,
                }],
            ),
            ..wallpaper_cleared(world)
        }),
        outcome(Command::SelectWallpaper(selected), world).files[PlaceView::Active(
            Slot::Wallpaper,
        )] == world.files[PlaceView::Entry {
            dir: Dir::Wallpapers,
            position: (selected - 1) as nat,
        }],
{
    reveal_with_fuel(run, 7);
    let entries = world.entries(Dir::Wallpapers);
    let active = PlaceView::Active(Slot::Wallpaper);
    let entry = PlaceView::Entry { dir: Dir::Wallpapers, position: (selected - 1) as nat };
    assert(entries[selected - 1] is Some);
    assert(world.files.dom().contains(entry));
    assert(trace(Command::SelectWallpaper(selected), world) =~= wallpaper_clearing(world) + seq![
        activation(Dir::Wallpapers, (selected - 1) as nat),
        ActionView::Finish,
    ]);
    assert(world.files.remove(active).insert(active, world.files[entry]) =~= world.files.insert(
        active,
        world.files[entry],
    ));
}

/// Where the copy of the selected wallpaper fails, the failure is reported on
/// standard error; the old wallpaper has been deleted all the same.
pub proof fn law_select_wallpaper_reports_a_failed_copy(selected: usize, world: World)
    requires
        chosen(world.entries(Dir::Wallpapers), selected as nat) is Some,
        world.fails(activation(Dir::Wallpapers, (selected - 1) as nat)),
    ensures
        trace(Command::SelectWallpaper(selected), world) == wallpaper_clearing(world) + seq![
            activation(Dir::Wallpapers, (selected - 1) as nat),
            complaint("Error copying wallpaper: "@, world),
            ActionView::Finish,
        ],
        outcome(Command::SelectWallpaper(selected), world) == (World {
            errors: wallpaper_cleared(world).errors.push(
                "Error copying wallpaper: "@ + world.fault,
            ),
            ..wallpaper_cleared(world)
        }),
{
    reveal_with_fuel(run, 7);
    assert(trace(Command::SelectWallpaper(selected), world) =~= wallpaper_clearing(world) + seq![
        activation(Dir::Wallpapers, (selected - 1) as nat),
        complaint("Error copying wallpaper: "@, world),
        ActionView::Finish,
    ]);
}

/// Selecting a wallpaper by a number that picks no entry still deletes the
/// active wallpaper, if there is one, and copies nothing: unless the deletion
/// is refused, there is no active wallpaper afterwards.
pub proof fn law_select_wallpaper_out_of_range_leaves_none(selected: usize, world: World)
    requires
        chosen(world.entries(Dir::Wallpapers), selected as nat) is None,
    ensures
        trace(Command::SelectWallpaper(selected), world) == wallpaper_clearing(world) + seq![
            ActionView::Finish,
        ],
        outcome(Command::SelectWallpaper(selected), world) == wallpaper_cleared(world),
        !world.refused.contains(ActionView::Remove(PlaceView::Active(Slot::Wallpaper)))
            ==> !outcome(Command::SelectWallpaper(selected), world).holds(
            PlaceView::Active(Slot::Wallpaper),
        ),
{
    reveal_with_fuel(run, 7);
    assert(trace(Command::SelectWallpaper(selected), world) =~= wallpaper_clearing(world) + seq![
        ActionView::Finish,
    ]);
}

/// The question that the setup asks.
pub open spec fn question() -> Seq<char> {
    "Enter a name for the current config: "@
}

/// The name that the setup takes from standard input.
pub open spec fn typed_name(world: World) -> Seq<char> {
    trimmed(world.input)
}

/// The saved configuration of the name that the setup takes from standard
/// input.
pub open spec fn target(world: World) -> PlaceView {
    PlaceView::Saved { name: typed_name(world) }
}

/// The action that copies the active configuration to that place.
pub open spec fn saving(world: World) -> ActionView {
    ActionView::Copy { from: PlaceView::Active(Slot::Config), to: target(world) }
}

/// Whether the setup gets as far as the name: no action before it fails.
pub open spec fn setup_reaches_the_name(world: World) -> bool {
    &&& !world.fails(ActionView::CreateDirAll(Dir::Configs))
    &&& !world.refused.contains(ActionView::Prompt(question()))
    &&& !world.refused.contains(ActionView::ReadLine)
}

/// The actions with which the setup gets to the name: it looks for the
/// directory of saved configurations, creates it if it is missing, asks for a
/// name and reads the answer.
pub open spec fn setup_asking(world: World) -> Seq<ActionView> {
    let store = PlaceView::Managed(Dir::Configs);
    if world.holds(store) {
        seq![ActionView::Exists(store), ActionView::Prompt(question()), ActionView::ReadLine]
    } else {
        seq![
            ActionView::Exists(store),
            ActionView::CreateDirAll(Dir::Configs),
            ActionView::Prompt(question()),
            ActionView::ReadLine,
        ]
    }
}

/// The world in which those actions leave `world`: the directory of saved
/// configurations exists, empty if it was missing, and the question has been
/// written.
pub open spec fn setup_asked(world: World) -> World {
    World {
        dirs: if world.holds(PlaceView::Managed(Dir::Configs)) {
            world.dirs
        } else {
            world.dirs.insert(Dir::Configs, Seq::empty())
        },
        output: world.output.push(question()),
        ..world
    }
}

/// The setup creates the directory of saved configurations, if it is missing,
/// before it asks for a name. Where the name that is typed, less the white
/// space around it, can name a file and no saved configuration has it, the
/// setup copies the active configuration to the saved configuration of that
/// name: unless an action fails, that file afterwards holds the bytes of the
/// active configuration, the directory exists, the question is all that was
/// written, and nothing else has changed.
pub proof fn law_setup_saves_the_active_config(world: World)
    requires
        setup_reaches_the_name(world),
        is_file_name(typed_name(world)),
        !world.holds(target(world)),
        !world.fails(saving(world)),
    ensures
        trace(Command::Setup, world) == setup_asking(world) + seq![
            ActionView::Exists(target(world)),
            saving(world),
            ActionView::Finish,
        ],
        outcome(Command::Setup, world) == (World {
            files: world.files.insert(target(world), world.files[PlaceView::Active(Slot::Config)]),
            ..setup_asked(world)
        }),
        outcome(Command::Setup, world).holds(PlaceView::Managed(Dir::Configs)),
        outcome(Command::Setup, world).files[target(world)] == world.files[PlaceView::Active(
            Slot::Config,
        )],
{
    reveal_with_fuel(run, 8);
    assert(trace(Command::Setup, world) =~= setup_asking(world) + seq![
        ActionView::Exists(target(world)),
        saving(world),
        ActionView::Finish,
    ]);
}

/// Where the name that is typed cannot name a file, because it is empty or
/// holds a `/`, say, the setup copies nothing and reports that on standard
/// error: no file has changed.
pub proof fn law_setup_refuses_an_unsafe_name(world: World)
    requires
        setup_reaches_the_name(world),
        !is_file_name(typed_name(world)),
    ensures
        trace(Command::Setup, world) == setup_asking(world) + seq![
            ActionView::Report("Error copying config file: "@ + "the name is not a file name"@),
            ActionView::Finish,
        ],
        outcome(Command::Setup, world) == (World {
            errors: world.errors.push(
                "Error copying config file: "@ + "the name is not a file name"@,
            ),
            ..setup_asked(world)
        }),
        outcome(Command::Setup, world).files == world.files,
        outcome(Command::Setup, world).errors.len() == world.errors.len() + 1,
{
    reveal_with_fuel(run, 8);
    assert(trace(Command::Setup, world) =~= setup_asking(world) + seq![
        ActionView::Report("Error copying config file: "@ + "the name is not a file name"@),
        ActionView::Finish,
    ]);
}

/// Where a saved configuration has the name that is typed, the setup copies
/// nothing and reports that on standard error: no file has changed, and the
/// saved configuration holds what it held.
pub proof fn law_setup_refuses_a_taken_name(world: World)
    requires
        setup_reaches_the_name(world),
        is_file_name(typed_name(world)),
        world.holds(target(world)),
    ensures
        trace(Command::Setup, world) == setup_asking(world) + seq![
            ActionView::Exists(target(world)),
            ActionView::Report(
                "Error copying config file: "@ + "a saved configuration of that name exists"@,
            ),
            ActionView::Finish,
        ],
        outcome(Command::Setup, world) == (World {
            errors: world.errors.push(
                "Error copying config file: "@ + "a saved configuration of that name exists"@,
            ),
            ..setup_asked(world)
        }),
        outcome(Command::Setup, world).files == world.files,
        outcome(Command::Setup, world).errors.len() == world.errors.len() + 1,
{
    reveal_with_fuel(run, 8);
    assert(trace(Command::Setup, world) =~= setup_asking(world) + seq![
        ActionView::Exists(target(world)),
        ActionView::Report(
            "Error copying config file: "@ + "a saved configuration of that name exists"@,
        ),
        ActionView::Finish,
    ]);
}

/// In a world that hangs together, the name of an entry of the directory of
/// saved configurations is taken: the saved configuration of that name exists
/// and holds the bytes of the entry.
pub proof fn law_a_listed_name_is_taken(world: World, position: nat)
    requires
        world.consistent(),
        position < world.entries(Dir::Configs).len(),
        world.entries(Dir::Configs)[position as int] is Some,
    ensures
        world.holds(PlaceView::Saved { name: world.entries(Dir::Configs)[position as int]->0 }),
        world.files[PlaceView::Saved { name: world.entries(Dir::Configs)[position as int]->0 }]
            == world.files[PlaceView::Entry { dir: Dir::Configs, position }],
{
}

/// Where the copy of the active configuration fails, because there is no
/// active configuration, say, the failure is reported on standard error and no
/// file has changed.
pub proof fn law_setup_reports_a_failed_copy(world: World)
    requires
        setup_reaches_the_name(world),
        is_file_name(typed_name(world)),
        !world.holds(target(world)),
        world.fails(saving(world)),
    ensures
        trace(Command::Setup, world) == setup_asking(world) + seq![
            ActionView::Exists(target(world)),
            saving(world),
            complaint("Error copying config file: "@, world),
            ActionView::Finish,
        ],
        outcome(Command::Setup, world) == (World {
            errors: world.errors.push("Error copying config file: "@ + world.fault),
            ..setup_asked(world)
        }),
        outcome(Command::Setup, world).files == world.files,
{
    reveal_with_fuel(run, 8);
    assert(trace(Command::Setup, world) =~= setup_asking(world) + seq![
        ActionView::Exists(target(world)),
        saving(world),
        complaint("Error copying config file: "@, world),
        ActionView::Finish,
    ]);
}

/// Where the directory of saved configurations is missing and cannot be
/// created, the setup reports the failure on standard error and stops: it
/// asks for no name and changes nothing else.
pub proof fn law_setup_stops_without_its_directory(world: World)
    requires
        world.fails(ActionView::CreateDirAll(Dir::Configs)),
    ensures
        trace(Command::Setup, world) == seq![
            ActionView::Exists(PlaceView::Managed(Dir::Configs)),
            ActionView::CreateDirAll(Dir::Configs),
            complaint("Error creating config files directory: "@, world),
            ActionView::Finish,
        ],
        outcome(Command::Setup, world) == (World {
            errors: world.errors.push("Error creating config files directory: "@ + world.fault),
            ..world
        }),
{
    reveal_with_fuel(run, 8);
    assert(trace(Command::Setup, world) =~= seq![
        ActionView::Exists(PlaceView::Managed(Dir::Configs)),
        ActionView::CreateDirAll(Dir::Configs),
        complaint("Error creating config files directory: "@, world),
        ActionView::Finish,
    ]);
}

} // verus!
