use sway_switcher::command::Command;
use sway_switcher::layout::{Dir, Place, Slot};
use sway_switcher::listing::Listing;
use sway_switcher::machine::State;
use sway_switcher::protocol::{Action, Event};

/// A file system in memory, with the standard streams beside it.
#[derive(Clone, Debug, PartialEq, Default)]
struct World {
    configs: Option<Vec<(String, Vec<u8>)>>,
    wallpapers: Option<Vec<(String, Vec<u8>)>>,
    active_config: Option<Vec<u8>>,
    active_wallpaper: Option<Vec<u8>>,
    input: String,
    output: Vec<String>,
    errors: Vec<String>,
}

impl World {
    fn dir(&mut self, dir: Dir) -> &mut Option<Vec<(String, Vec<u8>)>> {
        match dir {
            Dir::Configs => &mut self.configs,
            Dir::Wallpapers => &mut self.wallpapers,
        }
    }

    fn read(&mut self, place: &Place) -> Option<Vec<u8>> {
        match place {
            Place::Managed(_) => None,
            Place::Active(Slot::Config) => self.active_config.clone(),
            Place::Active(Slot::Wallpaper) => self.active_wallpaper.clone(),
            Place::Entry { dir, position } => {
                self.dir(*dir).as_ref().and_then(|e| e.get(*position)).map(|e| e.1.clone())
            }
            Place::Saved { name } => self
                .configs
                .as_ref()
                .and_then(|e| e.iter().find(|e| &e.0 == name))
                .map(|e| e.1.clone()),
        }
    }

    fn write(&mut self, place: &Place, bytes: Vec<u8>) -> bool {
        match place {
            Place::Managed(_) => false,
            Place::Active(Slot::Config) => {
                self.active_config = Some(bytes);
                true
            }
            Place::Active(Slot::Wallpaper) => {
                self.active_wallpaper = Some(bytes);
                true
            }
            Place::Entry { dir, position } => match self.dir(*dir) {
                Some(entries) if *position < entries.len() => {
                    entries[*position].1 = bytes;
                    true
                }
                _ => false,
            },
            Place::Saved { name } => match &mut self.configs {
                Some(entries) => {
                    match entries.iter_mut().find(|e| &e.0 == name) {
                        Some(entry) => entry.1 = bytes,
                        None => entries.push((name.clone(), bytes)),
                    }
                    true
                }
                None => false,
            },
        }
    }

    fn perform(&mut self, action: &Action) -> Event {
        match action {
            Action::ReadDir(dir) => Event::Listing(Listing {
                entries: self
                    .dir(*dir)
                    .as_ref()
                    .map(|entries| entries.iter().map(|e| Some(e.0.clone())).collect()),
            }),
            Action::Exists(Place::Managed(dir)) => Event::Existence(self.dir(*dir).is_some()),
            Action::Exists(place) => Event::Existence(self.read(place).is_some()),
            Action::Remove(Place::Active(Slot::Config)) if self.active_config.is_some() => {
                self.active_config = None;
                Event::Completed
            }
            Action::Remove(Place::Active(Slot::Wallpaper)) if self.active_wallpaper.is_some() => {
                self.active_wallpaper = None;
                Event::Completed
            }
            Action::Remove(_) => Event::Failed("cannot remove".to_string()),
            Action::CreateDirAll(dir) => {
                if self.dir(*dir).is_none() {
                    *self.dir(*dir) = Some(Vec::new());
                }
                Event::Completed
            }
            Action::Copy { from, to } => match self.read(from) {
                Some(bytes) if self.write(to, bytes.clone()) => Event::Completed,
                _ => Event::Failed("cannot copy".to_string()),
            },
            Action::Print(lines) => {
                self.output.extend(lines.iter().cloned());
                Event::Completed
            }
            Action::Prompt(text) => {
                self.output.push(text.clone());
                Event::Completed
            }
            Action::ReadLine => Event::Line(self.input.clone()),
            Action::Report(line) => {
                self.errors.push(line.clone());
                Event::Completed
            }
            Action::Finish | Action::Abort(_) => Event::Completed,
        }
    }

    /// Runs `command` to its end and gives the actions that it handed out.
    fn run(&mut self, command: Command) -> Vec<Action> {
        let mut actions = Vec::new();
        let mut state = State::start(command);
        let mut event = Event::Begin;
        loop {
            let (next, action) = state.step(event);
            actions.push(action.clone());
            if matches!(action, Action::Finish | Action::Abort(_)) {
                return actions;
            }
            assert!(actions.len() < 16, "the operation does not end");
            event = self.perform(&action);
            state = next;
        }
    }
}

fn files(names: &[&str]) -> Option<Vec<(String, Vec<u8>)>> {
    Some(names.iter().map(|n| (n.to_string(), format!("contents of {}", n).into_bytes())).collect())
}

fn saved(world: &World, name: &str) -> Option<Vec<u8>> {
    world.configs.as_ref().and_then(|e| e.iter().find(|e| e.0 == name)).map(|e| e.1.clone())
}

#[test]
fn listing_configs_prints_one_numbered_line_for_each_entry() {
    let mut world = World { configs: files(&["a", "b", "c"]), ..World::default() };
    let before = world.clone();
    let actions = world.run(Command::ListConfigs);
    assert_eq!(world.output, vec!["1. a", "2. b", "3. c"]);
    assert_eq!(world, World { output: world.output.clone(), ..before });
    assert_eq!(actions.first(), Some(&Action::ReadDir(Dir::Configs)));
    assert_eq!(actions.last(), Some(&Action::Finish));
}

#[test]
fn listing_wallpapers_prints_one_numbered_line_for_each_entry() {
    let names: Vec<String> = (0..25).map(|k| format!("w{}.png", k)).collect();
    let refs: Vec<&str> = names.iter().map(|n| n.as_str()).collect();
    let mut world = World { wallpapers: files(&refs), configs: files(&["a"]), ..World::default() };
    world.run(Command::ListWallpapers);
    assert_eq!(world.output.len(), 25);
    for k in 0..25 {
        assert_eq!(world.output[k], format!("{}. w{}.png", k + 1, k));
    }
}

#[test]
fn listing_a_missing_directory_prints_nothing() {
    let mut world = World::default();
    let before = world.clone();
    world.run(Command::ListConfigs);
    world.run(Command::ListWallpapers);
    assert_eq!(world, before);
}

#[test]
fn selecting_the_second_of_three_configs_activates_it() {
    let mut world = World {
        configs: files(&["a", "b", "c"]),
        active_config: Some(b"old".to_vec()),
        ..World::default()
    };
    let before = world.clone();
    let actions = world.run(Command::SelectConfig(2));
    assert_eq!(world.active_config, Some(b"contents of b".to_vec()));
    assert_eq!(world, World { active_config: world.active_config.clone(), ..before });
    assert_eq!(
        actions,
        vec![
            Action::ReadDir(Dir::Configs),
            Action::Copy {
                from: Place::Entry { dir: Dir::Configs, position: 1 },
                to: Place::Active(Slot::Config),
            },
            Action::Finish,
        ]
    );
}

#[test]
fn selecting_each_config_activates_that_config() {
    for selected in 1..=3 {
        let mut world = World { configs: files(&["a", "b", "c"]), ..World::default() };
        world.run(Command::SelectConfig(selected));
        assert_eq!(world.active_config, world.configs.as_ref().map(|e| e[selected - 1].1.clone()));
    }
}

#[test]
fn selecting_a_config_out_of_range_changes_nothing() {
    for selected in [0, 4, 100, usize::MAX] {
        let mut world = World {
            configs: files(&["a", "b", "c"]),
            active_config: Some(b"old".to_vec()),
            ..World::default()
        };
        let before = world.clone();
        let actions = world.run(Command::SelectConfig(selected));
        assert_eq!(world, before);
        assert_eq!(actions, vec![Action::ReadDir(Dir::Configs), Action::Finish]);
    }
}

#[test]
fn selecting_a_config_from_a_missing_directory_changes_nothing() {
    let mut world = World { active_config: Some(b"old".to_vec()), ..World::default() };
    let before = world.clone();
    world.run(Command::SelectConfig(1));
    assert_eq!(world, before);
}

#[test]
fn selecting_a_wallpaper_replaces_the_active_one() {
    let mut world = World {
        wallpapers: files(&["sea.png", "hill.png"]),
        active_wallpaper: Some(b"old".to_vec()),
        ..World::default()
    };
    let actions = world.run(Command::SelectWallpaper(2));
    assert_eq!(world.active_wallpaper, Some(b"contents of hill.png".to_vec()));
    assert_eq!(
        actions,
        vec![
            Action::ReadDir(Dir::Wallpapers),
            Action::Exists(Place::Active(Slot::Wallpaper)),
            Action::Remove(Place::Active(Slot::Wallpaper)),
            Action::Copy {
                from: Place::Entry { dir: Dir::Wallpapers, position: 1 },
                to: Place::Active(Slot::Wallpaper),
            },
            Action::Finish,
        ]
    );
}

#[test]
fn selecting_a_wallpaper_without_an_active_one_deletes_nothing() {
    let mut world = World { wallpapers: files(&["sea.png"]), ..World::default() };
    let actions = world.run(Command::SelectWallpaper(1));
    assert_eq!(world.active_wallpaper, Some(b"contents of sea.png".to_vec()));
    assert!(!actions.contains(&Action::Remove(Place::Active(Slot::Wallpaper))));
}

#[test]
fn selecting_from_an_empty_wallpaper_directory_deletes_the_active_wallpaper() {
    let mut world = World {
        wallpapers: files(&[]),
        active_wallpaper: Some(b"old".to_vec()),
        ..World::default()
    };
    let actions = world.run(Command::SelectWallpaper(1));
    assert_eq!(world.active_wallpaper, None);
    assert_eq!(
        actions,
        vec![
            Action::ReadDir(Dir::Wallpapers),
            Action::Exists(Place::Active(Slot::Wallpaper)),
            Action::Remove(Place::Active(Slot::Wallpaper)),
            Action::Finish,
        ]
    );
    assert!(world.errors.is_empty());
    assert!(world.output.is_empty());
}

#[test]
fn selecting_a_wallpaper_out_of_range_leaves_no_active_wallpaper() {
    for selected in [0, 3, usize::MAX] {
        let mut world = World {
            wallpapers: files(&["sea.png", "hill.png"]),
            active_wallpaper: Some(b"old".to_vec()),
            ..World::default()
        };
        world.run(Command::SelectWallpaper(selected));
        assert_eq!(world.active_wallpaper, None);
        assert_eq!(world.wallpapers, files(&["sea.png", "hill.png"]));
    }
}

#[test]
fn setup_creates_the_directory_and_saves_the_active_config() {
    let mut world = World {
        active_config: Some(b"set $mod Mod4\n".to_vec()),
        input: "foo\n".to_string(),
        ..World::default()
    };
    let actions = world.run(Command::Setup);
    assert_eq!(saved(&world, "foo"), Some(b"set $mod Mod4\n".to_vec()));
    assert_eq!(world.active_config, Some(b"set $mod Mod4\n".to_vec()));
    assert_eq!(world.output, vec!["Enter a name for the current config: "]);
    assert!(world.errors.is_empty());
    assert_eq!(world.wallpapers, None);
    assert_eq!(
        actions,
        vec![
            Action::Exists(Place::Managed(Dir::Configs)),
            Action::CreateDirAll(Dir::Configs),
            Action::Prompt("Enter a name for the current config: ".to_string()),
            Action::ReadLine,
            Action::Exists(Place::Saved { name: "foo".to_string() }),
            Action::Copy {
                from: Place::Active(Slot::Config),
                to: Place::Saved { name: "foo".to_string() },
            },
            Action::Finish,
        ]
    );
}

#[test]
fn setup_in_an_existing_directory_creates_nothing() {
    let mut world = World {
        configs: files(&["a"]),
        active_config: Some(b"x".to_vec()),
        input: " b \n".to_string(),
        ..World::default()
    };
    let actions = world.run(Command::Setup);
    assert!(!actions.contains(&Action::CreateDirAll(Dir::Configs)));
    assert_eq!(saved(&world, "a"), Some(b"contents of a".to_vec()));
    assert_eq!(saved(&world, "b"), Some(b"x".to_vec()));
}

#[test]
fn setup_without_an_active_config_reports_the_failure() {
    let mut world = World { input: "foo\n".to_string(), ..World::default() };
    let actions = world.run(Command::Setup);
    assert_eq!(world.configs, Some(Vec::new()));
    assert_eq!(world.errors, vec!["Error copying config file: cannot copy"]);
    assert_eq!(actions.last(), Some(&Action::Finish));
}

#[test]
fn setup_with_a_name_that_is_taken_leaves_the_saved_file_as_it_was() {
    let mut world = World {
        configs: Some(vec![("foo".to_string(), b"kept".to_vec())]),
        active_config: Some(b"new".to_vec()),
        input: "foo\n".to_string(),
        ..World::default()
    };
    let before = world.clone();
    let actions = world.run(Command::Setup);
    assert_eq!(saved(&world, "foo"), Some(b"kept".to_vec()));
    assert_eq!(
        world.errors,
        vec!["Error copying config file: a saved configuration of that name exists"]
    );
    assert_eq!(
        world,
        World { output: world.output.clone(), errors: world.errors.clone(), ..before }
    );
    assert!(!actions.iter().any(|action| matches!(action, Action::Copy { .. })));
    assert_eq!(actions.last(), Some(&Action::Finish));
}

#[test]
fn setup_with_an_unsafe_name_copies_nothing() {
    for input in ["\n", "a/b\n", "   \n", "../config\n", "/tmp/x\n", ".\n", "..\n"] {
        let mut world = World {
            configs: files(&["a"]),
            active_config: Some(b"x".to_vec()),
            input: input.to_string(),
            ..World::default()
        };
        let before = world.clone();
        let actions = world.run(Command::Setup);
        assert_eq!(world.errors, vec!["Error copying config file: the name is not a file name"]);
        assert_eq!(
            world,
            World { output: world.output.clone(), errors: world.errors.clone(), ..before }
        );
        assert!(!actions.iter().any(|action| matches!(action, Action::Copy { .. })));
        let looked = |action: &Action| matches!(action, Action::Exists(Place::Saved { .. }));
        assert!(!actions.iter().any(looked));
    }
}

#[test]
fn every_operation_ends_within_eight_actions() {
    let commands = [
        Command::ListConfigs,
        Command::SelectConfig(1),
        Command::Setup,
        Command::ListWallpapers,
        Command::SelectWallpaper(1),
    ];
    for command in commands {
        for world in [
            World::default(),
            World { input: "foo\n".to_string(), ..World::default() },
            World {
                configs: files(&["a"]),
                wallpapers: files(&["w"]),
                active_config: Some(Vec::new()),
                active_wallpaper: Some(Vec::new()),
                input: "a\n".to_string(),
                ..World::default()
            },
        ] {
            let mut world = world;
            let actions = world.run(command);
            assert!(actions.len() <= 8);
            assert_eq!(actions.last(), Some(&Action::Finish));
        }
    }
}
