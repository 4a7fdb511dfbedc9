//! Which operation a command line asks for.

use crate::text::{is_number, number_value, parse_index};
use vstd::prelude::*;

verus! {

/// An operation of the switcher.
#[derive(Clone, Copy, Debug, PartialEq, Eq)]
pub enum Command {
    /// Show the saved configuration files.
    ListConfigs,
    /// Make the saved configuration file with this number, counted from one,
    /// the active one.
    SelectConfig(usize),
    /// Save the active configuration under a name that the user types.
    Setup,
    /// Show the saved wallpapers.
    ListWallpapers,
    /// Make the saved wallpaper with this number, counted from one, the
    /// active one.
    SelectWallpaper(usize),
}

/// What the command line holds, flag by flag.
#[derive(Clone, Debug, PartialEq, Eq)]
pub struct Flags {
    /// Whether `--list-configs` is given.
    pub list_configs: bool,
    /// The value of `--select-config`, if it is given.
    pub select_config: Option<String>,
    /// Whether `--setup` is given, or `-setup`, which stands for it.
    pub setup: bool,
    /// Whether `--list-wallpapers` is given.
    pub list_wallpapers: bool,
    /// The value of `--select-wallpaper`, if it is given.
    pub select_wallpaper: Option<String>,
}

/// Why a command line asks for no operation that can be run.
#[derive(Clone, Copy, Debug, PartialEq, Eq)]
pub enum CommandError {
    /// The value of the flag that decides is not a number that `usize` holds.
    InvalidIndex,
}

/// The spelling that the command line is read in: `-setup` stands for
/// `--setup`, and every other argument for itself.
pub open spec fn canonical_spelling(argument: Seq<char>) -> Seq<char> {
    if argument == "-setup"@ {
        "--setup"@
    } else {
        argument
    }
}

/// Gives an argument of the command line in the spelling that it is read in.
pub fn canonical(argument: String) -> (spelling: String)
    ensures
        spelling@ == canonical_spelling(argument@),
{
    let short = String::from_str("-setup");
    if argument == short {
        String::from_str("--setup")
    } else {
        argument
    }
}

/// The selection index that `text` stands for.
pub open spec fn index_of(text: Seq<char>) -> Result<usize, CommandError> {
    if is_number(text) && number_value(text) <= usize::MAX {
        Ok(number_value(text) as usize)
    } else {
        Err(CommandError::InvalidIndex)
    }
}

/// The operation that `flags` ask for.
///
/// The flags are looked at in a fixed order, and the first one that is given
/// decides; the others are not looked at, not even for a value that is no
/// number. Where none is given, no operation is asked for.
pub open spec fn requested(flags: Flags) -> Result<Option<Command>, CommandError> {
    if flags.list_configs {
        Ok(Some(Command::ListConfigs))
    } else if flags.select_config is Some {
        match index_of(flags.select_config->0@) {
            Ok(selected) => Ok(Some(Command::SelectConfig(selected))),
            Err(e) => Err(e),
        }
    } else if flags.setup {
        Ok(Some(Command::Setup))
    } else if flags.list_wallpapers {
        Ok(Some(Command::ListWallpapers))
    } else if flags.select_wallpaper is Some {
        match index_of(flags.select_wallpaper->0@) {
            Ok(selected) => Ok(Some(Command::SelectWallpaper(selected))),
            Err(e) => Err(e),
        }
    } else {
        Ok(None)
    }
}

/// Reads a selection index.
pub fn index(text: &str) -> (r: Result<usize, CommandError>)
    ensures
        r == index_of(text@),
{
    match parse_index(text) {
        Some(selected) => Ok(selected),
        None => Err(CommandError::InvalidIndex),
    }
}

/// Finds the operation that the flags ask for.
pub fn dispatch(flags: &Flags) -> (r: Result<Option<Command>, CommandError>)
    ensures
        r == requested(*flags),
{
    if flags.list_configs {
        return Ok(Some(Command::ListConfigs));
    }
    if let Some(text) = &flags.select_config {
        return match index(text.as_str()) {
            Ok(selected) => Ok(Some(Command::SelectConfig(selected))),
            Err(e) => Err(e),
        };
    }
    if flags.setup {
        return Ok(Some(Command::Setup));
    }
    if flags.list_wallpapers {
        return Ok(Some(Command::ListWallpapers));
    }
    if let Some(text) = &flags.select_wallpaper {
        return match index(text.as_str()) {
            Ok(selected) => Ok(Some(Command::SelectWallpaper(selected))),
            Err(e) => Err(e),
        };
    }
    Ok(None)
}

} // verus!
