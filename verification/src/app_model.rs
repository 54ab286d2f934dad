use vstd::prelude::*;

use edtui::{EditorEventHandler, EditorState};

use crate::config::AppConfig;
use crate::game_model::GameModel;

verus! {

/// The state of a text editor of the `edtui` crate: its lines, cursor, mode and history.
#[verifier::external_type_specification]
#[verifier::external_body]
pub struct ExEditorState(edtui::EditorState);

/// The key and mouse bindings of an `edtui` editor.
#[verifier::external_type_specification]
#[verifier::external_body]
pub struct ExEditorEventHandler(edtui::EditorEventHandler);

/// The lines that an editor holds (its public field `lines`), each as its characters.
pub uninterp spec fn editor_lines(editor: EditorState) -> Seq<Seq<char>>;

/// The lines that `Lines::from` makes of `text`: its lines as `str::lines` splits them, and
/// one empty line more where `text` ends with a line feed.
pub uninterp spec fn lines_from(text: Seq<char>) -> Seq<Seq<char>>;

/// `EditorState::new` on `Lines::from(text)`: an editor that holds the lines of `text`, with
/// the system clipboard where the machine offers one. Claims only that the editor holds the
/// lines that `Lines::from` makes of `text`; its cursor, mode and clipboard are not stated.
#[verifier::external_body]
fn editor_with_text(text: &str) -> (editor: EditorState)
    ensures
        editor_lines(editor) == lines_from(text@),
{
    EditorState::new(edtui::Lines::from(text))
}

/// `EditorEventHandler::default`: the default key bindings. Nothing is claimed of the
/// handler it returns.
#[verifier::external_body]
fn default_editor_handler() -> EditorEventHandler {
    EditorEventHandler::default()
}

/// Whether the application keeps running or is on its way out.
#[derive(Clone, Copy, Debug, PartialEq, Eq, Structural)]
pub enum AppModelState {
    OffFocused,
    Exiting,
}

/// The state of the application: the clock, the game and its editors, and the settings.
pub struct AppModel {
    pub tick_counter: u16,
    pub game_time: i64,
    pub game_actions: Vec<char>,
    pub game: Option<GameModel>,
    pub game_editor_state: EditorState,
    pub game_editor_handler: EditorEventHandler,
    pub command_editor_state: EditorState,
    pub ed_handler: EditorEventHandler,
    pub state: AppModelState,
    pub is_popup: bool,
    pub config: AppConfig,
}

impl AppModel {
    /// A fresh application for `config`: the clock at zero, no game and no action yet, the
    /// game editor holding the script of `config`, the command editor holding the starting
    /// commands, no popup, and the application running.
    pub fn new(config: &AppConfig) -> (app: AppModel)
        ensures
            app.tick_counter == 0,
            app.game_time == 0,
            app.game_actions@ == Seq::<char>::empty(),
            app.game is None,
            app.state == AppModelState::OffFocused,
            !app.is_popup,
            app.config == *config,
            editor_lines(app.game_editor_state) == lines_from(config.game_lua_code@),
            editor_lines(app.command_editor_state) == lines_from("10j3k2l\n3h\n6j7l3k"@),
    {
        AppModel {
            tick_counter: 0,
            game_time: 0,
            game_actions: Vec::new(),
            game: None,
            game_editor_state: editor_with_text(config.game_lua_code.as_str()),
            game_editor_handler: default_editor_handler(),
            command_editor_state: editor_with_text("10j3k2l\n3h\n6j7l3k"),
            ed_handler: default_editor_handler(),
            state: AppModelState::OffFocused,
            is_popup: false,
            config: config.clone(),
        }
    }

    /// Whether the application is on its way out.
    pub fn is_exiting(&self) -> (exiting: bool)
        ensures
            exiting == (self.state == AppModelState::Exiting),
    {
        self.state == AppModelState::Exiting
    }
}

} // verus!
