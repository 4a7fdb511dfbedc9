//! Where things lie below the user's home directory.

use vstd::prelude::*;

verus! {

/// A managed directory: it holds the saved variants of one kind of resource.
#[derive(Clone, Copy, Debug, PartialEq, Eq)]
pub enum Dir {
    /// The saved configuration files.
    Configs,
    /// The saved wallpapers.
    Wallpapers,
}

/// An active slot: the one file that sway reads as the current resource.
#[derive(Clone, Copy, Debug, PartialEq, Eq)]
pub enum Slot {
    /// The configuration file in use.
    Config,
    /// The wallpaper in use.
    Wallpaper,
}

impl Dir {
    /// The directory's path, relative to the home directory.
    pub open spec fn relative_path(self) -> Seq<char> {
        match self {
            Dir::Configs => ".config/sway/config_files"@,
            Dir::Wallpapers => ".config/sway/wallpapers"@,
        }
    }

    /// Gives the directory's path, relative to the home directory.
    pub fn relative(self) -> (path: &'static str)
        ensures
            path@ == self.relative_path(),
    {
        match self {
            Dir::Configs => ".config/sway/config_files",
            Dir::Wallpapers => ".config/sway/wallpapers",
        }
    }

    /// The slot that an entry of this directory is copied to when selected.
    pub open spec fn feeds(self) -> Slot {
        match self {
            Dir::Configs => Slot::Config,
            Dir::Wallpapers => Slot::Wallpaper,
        }
    }

    /// Gives the slot that an entry of this directory is copied to when selected.
    pub fn slot(self) -> (slot: Slot)
        ensures
            slot == self.feeds(),
    {
        match self {
            Dir::Configs => Slot::Config,
            Dir::Wallpapers => Slot::Wallpaper,
        }
    }
}

impl Slot {
    /// The slot's path, relative to the home directory.
    pub open spec fn relative_path(self) -> Seq<char> {
        match self {
            Slot::Config => ".config/sway/config"@,
            Slot::Wallpaper => ".config/sway/wallpaper.png"@,
        }
    }

    /// Gives the slot's path, relative to the home directory.
    pub fn relative(self) -> (path: &'static str)
        ensures
            path@ == self.relative_path(),
    {
        match self {
            Slot::Config => ".config/sway/config",
            Slot::Wallpaper => ".config/sway/wallpaper.png",
        }
    }
}

/// A file or directory that an action names.
#[derive(Clone, Debug, PartialEq, Eq)]
pub enum Place {
    /// A managed directory itself.
    Managed(Dir),
    /// An active slot.
    Active(Slot),
    /// The entry that stood at `position`, counted from zero, when `dir` was
    /// last enumerated.
    Entry { dir: Dir, position: usize },
    /// The file called `name` in the directory of saved configurations.
    Saved { name: String },
}

/// What a [`Place`] stands for in contracts.
pub enum PlaceView {
    Managed(Dir),
    Active(Slot),
    Entry { dir: Dir, position: nat },
    Saved { name: Seq<char> },
}

impl View for Place {
    type V = PlaceView;

    open spec fn view(&self) -> PlaceView {
        match self {
            Place::Managed(dir) => PlaceView::Managed(*dir),
            Place::Active(slot) => PlaceView::Active(*slot),
            Place::Entry { dir, position } => PlaceView::Entry {
                dir: *dir,
                position: *position as nat,
            },
            Place::Saved { name } => PlaceView::Saved { name: name@ },
        }
    }
}

} // verus!
