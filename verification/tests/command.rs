use sway_switcher::command::{canonical, dispatch, index, Command, CommandError, Flags};

fn no_flags() -> Flags {
    Flags {
        list_configs: false,
        select_config: None,
        setup: false,
        list_wallpapers: false,
        select_wallpaper: None,
    }
}

#[test]
fn no_flag_asks_for_nothing() {
    assert_eq!(dispatch(&no_flags()), Ok(None));
}

#[test]
fn each_flag_asks_for_its_operation() {
    let mut flags = no_flags();
    flags.list_configs = true;
    assert_eq!(dispatch(&flags), Ok(Some(Command::ListConfigs)));

    let mut flags = no_flags();
    flags.select_config = Some("2".to_string());
    assert_eq!(dispatch(&flags), Ok(Some(Command::SelectConfig(2))));

    let mut flags = no_flags();
    flags.setup = true;
    assert_eq!(dispatch(&flags), Ok(Some(Command::Setup)));

    let mut flags = no_flags();
    flags.list_wallpapers = true;
    assert_eq!(dispatch(&flags), Ok(Some(Command::ListWallpapers)));

    let mut flags = no_flags();
    flags.select_wallpaper = Some("15".to_string());
    assert_eq!(dispatch(&flags), Ok(Some(Command::SelectWallpaper(15))));
}

#[test]
fn the_first_flag_that_is_given_decides() {
    let all = Flags {
        list_configs: true,
        select_config: Some("1".to_string()),
        setup: true,
        list_wallpapers: true,
        select_wallpaper: Some("2".to_string()),
    };
    assert_eq!(dispatch(&all), Ok(Some(Command::ListConfigs)));

    let mut flags = all.clone();
    flags.list_configs = false;
    assert_eq!(dispatch(&flags), Ok(Some(Command::SelectConfig(1))));

    flags.select_config = None;
    assert_eq!(dispatch(&flags), Ok(Some(Command::Setup)));

    flags.setup = false;
    assert_eq!(dispatch(&flags), Ok(Some(Command::ListWallpapers)));

    flags.list_wallpapers = false;
    assert_eq!(dispatch(&flags), Ok(Some(Command::SelectWallpaper(2))));
}

#[test]
fn a_value_that_is_no_number_is_an_error() {
    let mut flags = no_flags();
    flags.select_config = Some("two".to_string());
    assert_eq!(dispatch(&flags), Err(CommandError::InvalidIndex));

    let mut flags = no_flags();
    flags.select_wallpaper = Some("-1".to_string());
    assert_eq!(dispatch(&flags), Err(CommandError::InvalidIndex));

    let mut flags = no_flags();
    flags.select_wallpaper = Some(String::new());
    assert_eq!(dispatch(&flags), Err(CommandError::InvalidIndex));
}

#[test]
fn a_value_behind_the_deciding_flag_is_not_looked_at() {
    let mut flags = no_flags();
    flags.list_configs = true;
    flags.select_config = Some("two".to_string());
    assert_eq!(dispatch(&flags), Ok(Some(Command::ListConfigs)));

    let mut flags = no_flags();
    flags.select_config = Some("3".to_string());
    flags.select_wallpaper = Some("x".to_string());
    assert_eq!(dispatch(&flags), Ok(Some(Command::SelectConfig(3))));
}

#[test]
fn an_invalid_value_of_the_deciding_flag_hides_no_later_flag() {
    let mut flags = no_flags();
    flags.select_config = Some("x".to_string());
    flags.setup = true;
    assert_eq!(dispatch(&flags), Err(CommandError::InvalidIndex));
}

#[test]
fn index_reads_a_number() {
    assert_eq!(index("0"), Ok(0));
    assert_eq!(index("42"), Ok(42));
    assert_eq!(index("+42"), Ok(42));
    assert_eq!(index("4 2"), Err(CommandError::InvalidIndex));
    assert_eq!(index("99999999999999999999999999"), Err(CommandError::InvalidIndex));
}

#[test]
fn the_short_spelling_of_setup_stands_for_the_long_one() {
    assert_eq!(canonical("-setup".to_string()), "--setup");
}

#[test]
fn every_other_argument_stands_for_itself() {
    for argument in ["--setup", "-s", "setup", "-setup ", "--list-configs", "2", "", "-setups"] {
        assert_eq!(canonical(argument.to_string()), argument);
    }
}
