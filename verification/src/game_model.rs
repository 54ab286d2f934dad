use vstd::prelude::*;

use mlua::{Function, Table};

use crate::game_state::{GameState, GameStateView, ObjectsView};
use crate::lua_bridge::{
    call_with_time, call_with_time_and_position, lua_exec, lua_global_function, lua_global_table,
    make_sandbox, table_entry_table, table_entry_u16, table_field_string, table_field_table,
    table_len, Sandbox,
};
use crate::movement::{move_fits, move_player, spec_move_player, GameCommand};
use crate::script_trace::{
    coords_steps, entries_steps, list_steps, player_steps, reply_steps, sandbox_steps, table_steps,
    update_call_steps, LuaKey, ScriptStep, ScriptTrace,
};
use crate::update_reply::{
    coords_from_read, kept_objects, spec_coords, spec_state_after_update, state_after_update,
    CoordsRead, UpdateReply, UpdateReplyView,
};

verus! {

/// Why the game model refused a request.
#[derive(Debug)]
pub enum GameError {
    /// The Lua interpreter reported an error while running the game's script.
    Lua(mlua::Error),
    /// A game that has not started yet was given a time other than the start time `-1`.
    NotStarted,
}

/// The game: its Lua script, run in an interpreter of its own, the state of the game, and the
/// record of what the library exchanged with the interpreter.
pub struct GameModel {
    sandbox: Sandbox,
    game_state: GameState,
    trace: ScriptTrace,
}

impl View for GameModel {
    type V = GameStateView;

    closed spec fn view(&self) -> GameStateView {
        self.game_state@
    }
}

impl GameModel {
    /// What the library has exchanged with the game's interpreter so far, oldest first.
    pub closed spec fn script_trace(&self) -> Seq<ScriptStep> {
        self.trace@
    }
}

/// The time stamp that starts (or restarts) a game.
pub const START_TIME: i64 = -1;

/// The most memory, in bytes, that a game's script may hold.
pub const SCRIPT_MEMORY_LIMIT: usize = 67108864;

/// What reading a position table gives: entry 1 as a `u16`, then, where it is one, entry 2.
fn read_coords(pos: &Table, trace: &mut ScriptTrace) -> (read: CoordsRead)
    ensures
        final(trace)@ == old(trace)@ + coords_steps(read),
{
    match table_entry_u16(pos, 1, trace) {
        Err(_) => CoordsRead { x: None, y: None },
        Ok(x) => {
            let y = match table_entry_u16(pos, 2, trace) {
                Ok(y) => Some(y),
                Err(_) => None,
            };
            CoordsRead { x: Some(x), y }
        },
    }
}

/// What reading the position in the field `name` of `tbl` gives, `None` where the field is
/// not a table.
fn read_coords_by_name(tbl: &Table, name: &str, trace: &mut ScriptTrace) -> (read: Option<CoordsRead>)
    ensures
        final(trace)@ == old(trace)@ + table_steps(LuaKey::Field(name@), read),
{
    match table_field_table(tbl, name, trace) {
        Ok(pos) => Some(read_coords(&pos, trace)),
        Err(_) => None,
    }
}

/// What reading the position at `index` of `tbl` gives, `None` where the entry is not a table.
fn read_coords_by_index(tbl: &Table, index: usize, trace: &mut ScriptTrace) -> (read: Option<CoordsRead>)
    ensures
        final(trace)@ == old(trace)@ + table_steps(LuaKey::Index(index as int), read),
{
    match table_entry_table(tbl, index, trace) {
        Ok(pos) => Some(read_coords(&pos, trace)),
        Err(_) => None,
    }
}

/// What reading the list of positions in the field `name` of `tbl` gives: for each index
/// from 1 to the list's length, what reading that entry gives; `None` where the field is not
/// a table.
fn read_coords_list(tbl: &Table, name: &str, trace: &mut ScriptTrace) -> (reads: Option<Vec<Option<CoordsRead>>>)
    ensures
        final(trace)@ == old(trace)@ + list_steps(
            name@,
            match reads {
                Some(v) => Some(v@),
                None => None,
            },
        ),
{
    let items = match table_field_table(tbl, name, trace) {
        Ok(items) => items,
        Err(_) => return None,
    };
    let len = table_len(&items, trace);
    let ghost start = trace@;
    let mut reads: Vec<Option<CoordsRead>> = Vec::new();
    let mut i: usize = 0;
    while i < len
        invariant
            i <= len,
            reads.len() == i,
            trace@ == start + entries_steps(reads@),
        decreases len - i,
    {
        i = i + 1;
        let ghost before = reads@;
        let read = read_coords_by_index(&items, i, trace);
        reads.push(read);
        assert(reads@.drop_last() == before);
    }
    Some(reads)
}

/// What the library reads of the table that the script's `update` returned: the reason the
/// game is over, where the table gives one; otherwise the target and the obstacles.
fn read_update_reply(tbl: &Table, trace: &mut ScriptTrace) -> (reply: UpdateReply)
    ensures
        final(trace)@ == old(trace)@ + reply_steps(reply@),
        reply.game_over is Some ==> reply.target is None && reply.obstacles is None,
{
    match table_field_string(tbl, "GameOver", trace) {
        Ok(reason) => UpdateReply { game_over: Some(reason), target: None, obstacles: None },
        Err(_) => {
            let target = read_coords_by_name(tbl, "target", trace);
            let obstacles = read_coords_list(tbl, "obstacles", trace);
            UpdateReply { game_over: None, target, obstacles }
        },
    }
}

/// What asking the script's `update` for the state that follows `prev`, at `time` with the
/// player at `player`, may have exchanged with the interpreter, from the record `before` to
/// the record `after`, where `ok` says whether it succeeded and `next` is the state it gave.
///
/// Where it succeeded, the library found the function `update`, called it with `time` and
/// `player`, got a table back, and read a reply from it; `next` is the state that this reply
/// gives. Where it failed, either `update` is not a function, or the call did not return a
/// table.
pub open spec fn script_update(
    prev: GameStateView,
    before: Seq<ScriptStep>,
    time: i64,
    player: Option<(u16, u16)>,
    ok: bool,
    next: GameStateView,
    after: Seq<ScriptStep>,
) -> bool {
    if ok {
        exists|reply: UpdateReplyView|
            #![trigger reply_steps(reply)]
            after == before + update_call_steps(time, player, true) + reply_steps(reply)
                && next == spec_state_after_update(prev, player, reply)
    } else {
        ||| after == before.push(ScriptStep::ReadFunction(LuaKey::Global("update"@), false))
        ||| after == before + update_call_steps(time, player, false)
    }
}

/// What an update at `time` with the command `opt_cmd` exchanges with the interpreter, from
/// the record `before` to the record `after`, for a game in state `prev` that ends in state
/// `next`, where `ok` says whether the update succeeded.
///
/// The start time first reads the player's position from `new_player`, fails where it is not
/// a table, and otherwise asks the script with that position. At any other time a running
/// game asks the script with the player moved by the command, and any other game exchanges
/// nothing.
pub open spec fn update_traffic(
    prev: GameStateView,
    before: Seq<ScriptStep>,
    time: i64,
    opt_cmd: Option<GameCommand>,
    ok: bool,
    next: GameStateView,
    after: Seq<ScriptStep>,
) -> bool {
    if time == START_TIME {
        exists|read: Option<CoordsRead>|
            #![trigger player_steps(read)]
            match read {
                None => !ok && after == before + player_steps(read),
                Some(_) => script_update(prev, before + player_steps(read), time, spec_coords(read), ok, next, after),
            }
    } else {
        match prev {
            GameStateView::Running(objs) => script_update(
                prev,
                before,
                time,
                spec_move_player(objs.player, opt_cmd),
                ok,
                next,
                after,
            ),
            _ => after == before,
        }
    }
}

/// What an update at `time` with the command `opt_cmd` may do to a game in state `prev`,
/// answering `res` and leaving the game in state `next`.
///
/// A failed update leaves the state as it was. The start time (re)starts the game: where
/// it succeeds, the game runs or is over, and it fails only where the script does. At any
/// other time a game that has not started fails with `NotStarted`, a game that is over
/// stays as it is, and a running game fails only where the script does; otherwise it runs
/// on with the player moved by the command, or is over with the objects it ran with.
pub open spec fn update_outcome(
    prev: GameStateView,
    time: i64,
    opt_cmd: Option<GameCommand>,
    res: Result<(), GameError>,
    next: GameStateView,
) -> bool {
    &&& res is Err ==> next == prev
    &&& if time == START_TIME {
        &&& res matches Err(e) ==> e is Lua
        &&& res is Ok ==> !(next is Undef)
    } else {
        match prev {
            GameStateView::Undef => res matches Err(GameError::NotStarted),
            GameStateView::GameOver(_, _) => res is Ok && next == prev,
            GameStateView::Running(objs) => {
                &&& res matches Err(e) ==> e is Lua
                &&& res is Ok ==> match next {
                    GameStateView::Undef => false,
                    GameStateView::Running(moved) => moved.player == spec_move_player(objs.player, opt_cmd),
                    GameStateView::GameOver(_, kept) => kept == objs,
                }
            },
        }
    }
}

/// Once a game has started it never goes back to not started: every update, whatever it
/// answers, leaves a started game started.
pub proof fn lemma_started_game_stays_started(
    prev: GameStateView,
    time: i64,
    opt_cmd: Option<GameCommand>,
    res: Result<(), GameError>,
    next: GameStateView,
)
    requires
        update_outcome(prev, time, opt_cmd, res, next),
        !(prev is Undef),
    ensures
        !(next is Undef),
{
}

/// A game that is over stays over, with the same reason and objects, until it is started
/// again: updates at any other time succeed and change nothing.
pub proof fn lemma_game_over_is_final(
    reason: Seq<char>,
    objs: ObjectsView,
    time: i64,
    opt_cmd: Option<GameCommand>,
    res: Result<(), GameError>,
    next: GameStateView,
)
    requires
        update_outcome(GameStateView::GameOver(reason, objs), time, opt_cmd, res, next),
        time != START_TIME,
    ensures
        res is Ok,
        next == GameStateView::GameOver(reason, objs),
{
}

/// A game that has not started can only be started: at any other time the update fails
/// with `NotStarted` and the game stays not started.
pub proof fn lemma_start_comes_first(
    time: i64,
    opt_cmd: Option<GameCommand>,
    res: Result<(), GameError>,
    next: GameStateView,
)
    requires
        update_outcome(GameStateView::Undef, time, opt_cmd, res, next),
        time != START_TIME,
    ensures
        res matches Err(GameError::NotStarted),
        next is Undef,
{
}

impl GameModel {
    /// Makes the game's interpreter (see `sandbox_steps`), runs the game's script `code` in it,
    /// and leaves the game not started yet. Fails where the interpreter cannot be made or the
    /// script fails.
    pub fn new(code: &str) -> (res: Result<GameModel, GameError>)
        ensures
            res matches Ok(model) ==> model@ == GameStateView::Undef
                && model.script_trace() == sandbox_steps(SCRIPT_MEMORY_LIMIT as nat).push(ScriptStep::Run(code@, true)),
            res matches Err(e) ==> e is Lua,
    {
        let mut trace = ScriptTrace::new();
        let sandbox = match make_sandbox(SCRIPT_MEMORY_LIMIT, &mut trace) {
            Ok(sandbox) => sandbox,
            Err(e) => return Err(GameError::Lua(e)),
        };
        match lua_exec(&sandbox, code, &mut trace) {
            Ok(()) => Ok(GameModel { sandbox, game_state: GameState::Undef, trace }),
            Err(e) => Err(GameError::Lua(e)),
        }
    }

    /// The state of the game.
    pub fn state(&self) -> (state: &GameState)
        ensures
            state@ == self@,
    {
        &self.game_state
    }

    /// Calls the script's `update` with the time and, where there is one, the player's
    /// position as a table `{x, y}`.
    fn get_update_result<'a>(
        sandbox: &'a Sandbox,
        trace: &mut ScriptTrace,
        lua_update: &Function<'a>,
        time: i64,
        player: Option<(u16, u16)>,
    ) -> (res: Result<Table<'a>, GameError>)
        ensures
            final(trace)@ == old(trace)@.push(ScriptStep::CallUpdate(time, player, res is Ok)),
            res matches Err(e) ==> e is Lua,
    {
        let called = match player {
            None => call_with_time(sandbox, lua_update, time, trace),
            Some((x, y)) => call_with_time_and_position(sandbox, lua_update, time, x, y, trace),
        };
        match called {
            Ok(t) => Ok(t),
            Err(e) => Err(GameError::Lua(e)),
        }
    }

    /// Asks the script for the state that follows, at `time`, with the player at `player`: the
    /// library looks up the script's `update`, calls it with `time` and `player`, and reads the
    /// table it returns. The result is the state that this reply gives: under way with the
    /// player at `player`, or over with the objects that the game ran with (none where it did
    /// not run). Fails where the interpreter reports an error; the game's state is unchanged.
    pub fn invoke_lua_update(&mut self, time: i64, player: Option<(u16, u16)>) -> (res: Result<GameState, GameError>)
        ensures
            final(self)@ == old(self)@,
            match res {
                Ok(next) => script_update(
                    old(self)@,
                    old(self).script_trace(),
                    time,
                    player,
                    true,
                    next@,
                    final(self).script_trace(),
                ),
                Err(e) => e is Lua && script_update(
                    old(self)@,
                    old(self).script_trace(),
                    time,
                    player,
                    false,
                    old(self)@,
                    final(self).script_trace(),
                ),
            },
            res matches Ok(next) ==> match next@ {
                GameStateView::Undef => false,
                GameStateView::Running(objs) => objs.player == player,
                GameStateView::GameOver(_, objs) => objs == kept_objects(old(self)@),
            },
    {
        let ghost before = self.trace@;
        let lua_update = match lua_global_function(&self.sandbox, "update", &mut self.trace) {
            Ok(f) => f,
            Err(e) => return Err(GameError::Lua(e)),
        };
        let update_result = match Self::get_update_result(&self.sandbox, &mut self.trace, &lua_update, time, player) {
            Ok(t) => t,
            Err(e) => {
                assert(self.trace@ == before + update_call_steps(time, player, false));
                return Err(e);
            },
        };
        let reply = read_update_reply(&update_result, &mut self.trace);
        let next = state_after_update(&self.game_state, player, reply);
        assert(self.trace@ == before + update_call_steps(time, player, true) + reply_steps(reply@));
        Ok(next)
    }

    /// Reads the player's first position from the script's global `new_player = {x, y}`:
    /// none where either coordinate does not read as a `u16`. Fails where the global is
    /// not a table.
    fn lua_read_player(&mut self) -> (res: Result<Option<(u16, u16)>, GameError>)
        ensures
            final(self)@ == old(self)@,
            exists|read: Option<CoordsRead>|
                #![trigger player_steps(read)]
                final(self).script_trace() == old(self).script_trace() + player_steps(read)
                    && (res is Err <==> read is None)
                    && (res matches Err(e) ==> e is Lua)
                    && (res matches Ok(p) ==> p == spec_coords(read)),
    {
        let ghost before = self.trace@;
        let new_player = match lua_global_table(&self.sandbox, "new_player", &mut self.trace) {
            Ok(t) => t,
            Err(e) => {
                assert(self.trace@ == before + player_steps(None));
                return Err(GameError::Lua(e));
            },
        };
        let read = read_coords(&new_player, &mut self.trace);
        assert(self.trace@ == before + player_steps(Some(read)));
        Ok(coords_from_read(&Some(read)))
    }

    /// Advances the game to `time`, with the player's command `opt_cmd`.
    ///
    /// The start time `-1` (re)starts the game: the player's position is read from the
    /// script's `new_player` and handed to the script's `update`. Otherwise a game that has not
    /// started fails with `NotStarted`, a game that is over stays as it is, and a running game
    /// moves its player by the command and hands the script `time` and the moved player. The
    /// new state is what the script's reply gives. Where it fails, the state is unchanged.
    pub fn update(&mut self, time: i64, opt_cmd: Option<GameCommand>) -> (res: Result<(), GameError>)
        requires
            time != START_TIME ==> (old(self)@ matches GameStateView::Running(objs) ==> move_fits(objs.player, opt_cmd)),
        ensures
            update_outcome(old(self)@, time, opt_cmd, res, final(self)@),
            update_traffic(
                old(self)@,
                old(self).script_trace(),
                time,
                opt_cmd,
                res is Ok,
                final(self)@,
                final(self).script_trace(),
            ),
    {
        if time == START_TIME {
            let new_player = match self.lua_read_player() {
                Ok(p) => p,
                Err(e) => return Err(e),
            };
            let next = match self.invoke_lua_update(time, new_player) {
                Ok(s) => s,
                Err(e) => return Err(e),
            };
            self.game_state = next;
            return Ok(());
        }
        let player = match &self.game_state {
            GameState::Undef => return Err(GameError::NotStarted),
            GameState::GameOver(_, _) => return Ok(()),
            GameState::Running(objs) => objs.player,
        };
        let new_player = move_player(player, opt_cmd);
        let next = match self.invoke_lua_update(time, new_player) {
            Ok(s) => s,
            Err(e) => return Err(e),
        };
        self.game_state = next;
        Ok(())
    }
}

} // verus!
