use raa_tui::app::App;
use raa_tui::app_model::{AppModel, AppModelState};
use raa_tui::config::{setup, CliArgs};

#[test]
fn new_app_model_starts_idle() {
    let args = CliArgs { game: String::from("g.lua"), auto_run: false, refresh_rate: 20, tab_to_spaces: 2 };
    let config = setup(&args, Some(String::from("x = 1")));
    let mut app = AppModel::new(&config);
    assert_eq!(app.tick_counter, 0);
    assert_eq!(app.game_time, 0);
    assert!(app.game_actions.is_empty());
    assert!(app.game.is_none());
    assert!(!app.is_popup);
    assert_eq!(app.state, AppModelState::OffFocused);
    assert_eq!(app.config.game_lua_code, "x = 1");
    assert_eq!(app.game_editor_state.lines.to_string(), "x = 1");
    assert_eq!(app.command_editor_state.lines.to_string(), "10j3k2l\n3h\n6j7l3k");
    assert!(!app.is_exiting());
    app.state = AppModelState::Exiting;
    assert!(app.is_exiting());
}

#[test]
fn new_app_is_built() {
    let _app = App::new();
}
