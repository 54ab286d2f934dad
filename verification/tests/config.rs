use raa_tui::config::{replace_tabs, script_file_named, setup, try_load_file, CliArgs};
use std::time::Duration;

fn args(game: &str, refresh_rate: u8, tab_to_spaces: u8) -> CliArgs {
    CliArgs { game: String::from(game), auto_run: true, refresh_rate, tab_to_spaces }
}

#[test]
fn tabs_become_spaces() {
    assert_eq!(replace_tabs("a\tb\t\tc", 2), "a  b    c");
    assert_eq!(replace_tabs("\tx", 0), "x");
    assert_eq!(replace_tabs("no tabs here", 4), "no tabs here");
    assert_eq!(replace_tabs("é\tü", 1), "é ü");
}

#[test]
fn script_file_naming() {
    assert!(!script_file_named(""));
    assert!(script_file_named("game.lua"));
}

#[test]
fn load_without_file_name_is_empty() {
    assert_eq!(try_load_file("", 4, Some(String::from("ignored"))), "");
}

#[test]
fn load_failure_is_empty() {
    assert_eq!(try_load_file("missing.lua", 4, None), "");
}

#[test]
fn load_expands_tabs() {
    assert_eq!(try_load_file("g.lua", 3, Some(String::from("\tx = 1"))), "   x = 1");
}

#[test]
fn setup_builds_config() {
    let config = setup(&args("g.lua", 10, 4), Some(String::from("\tend")));
    assert_eq!(config.refresh_delay, Duration::from_millis(100));
    assert_eq!(config.game_lua_code, "    end");
    assert!(config.auto_run);
    let slow = setup(&args("", 3, 4), None);
    assert_eq!(slow.refresh_delay, Duration::from_millis(333));
    assert_eq!(slow.game_lua_code, "");
}

#[test]
fn config_clone_is_equal() {
    let config = setup(&args("g.lua", 7, 1), Some(String::from("a\tb")));
    let copy = config.clone();
    assert_eq!(copy.refresh_delay, config.refresh_delay);
    assert_eq!(copy.game_lua_code, config.game_lua_code);
    assert_eq!(copy.auto_run, config.auto_run);
}

#[test]
fn expanded_text_has_no_tabs() {
    for n in 0..4u8 {
        assert!(!replace_tabs("\t\ta\tb\t", n).contains('\t'));
    }
}
