use vstd::prelude::*;

use crate::update_reply::{CoordsRead, UpdateReplyView};

verus! {

/// Where the library reads a value in the interpreter: a global variable, a named field of
/// a table, or an integer entry of a table.
pub enum LuaKey {
    Global(Seq<char>),
    Field(Seq<char>),
    Index(int),
}

/// A standard library of Lua that a game's interpreter may hold.
#[derive(Clone, Copy, Debug, PartialEq, Eq, Structural)]
pub enum ScriptLibrary {
    Coroutine,
    Table,
    String,
    Utf8,
    Math,
}

/// One exchange of the library with the Lua interpreter, with what came of it.
pub enum ScriptStep {
    /// The standard library was loaded into the interpreter; whether that succeeded.
    OpenLibrary(ScriptLibrary, bool),
    /// The interpreter's memory was bounded to that many bytes; whether that succeeded.
    LimitMemory(nat, bool),
    /// The global was removed from the interpreter; whether that succeeded.
    RemoveGlobal(Seq<char>, bool),
    /// The chunk of code was run; whether it ran to its end without an error.
    Run(Seq<char>, bool),
    /// The script's `update` was called with the time and, where there is one, the player's
    /// position as the table `{x, y}`; whether it returned a table. Where there is a position,
    /// `false` also stands for a position table that could not be made, before any call.
    CallUpdate(i64, Option<(u16, u16)>, bool),
    /// The value at the key was read as a table; whether it is one.
    ReadTable(LuaKey, bool),
    /// The value at the key was read as a function; whether it is one.
    ReadFunction(LuaKey, bool),
    /// The value at the key was read as a `u16`, where it converts to one.
    ReadU16(LuaKey, Option<u16>),
    /// The value at the key was read as a string, where it converts to one.
    ReadString(LuaKey, Option<Seq<char>>),
    /// The length of a table was read.
    Length(nat),
}

/// The record of the library's exchanges with an interpreter, oldest first. It exists only
/// for the proofs: only the calls into the interpreter extend it.
pub struct ScriptTrace {
    steps: Ghost<Seq<ScriptStep>>,
}

impl View for ScriptTrace {
    type V = Seq<ScriptStep>;

    closed spec fn view(&self) -> Seq<ScriptStep> {
        self.steps@
    }
}

impl ScriptTrace {
    /// A record with no exchange yet.
    pub fn new() -> (trace: ScriptTrace)
        ensures
            trace@ == Seq::<ScriptStep>::empty(),
    {
        ScriptTrace { steps: Ghost(Seq::empty()) }
    }
}

/// The exchanges that make the interpreter of a game's script with a memory bound of
/// `memory_limit` bytes: the coroutine, table, string, utf8 and math libraries are loaded,
/// the memory is bounded, and the globals `print`, `dofile`, `loadfile`, `load` and
/// `setmetatable` are removed, each with success.
pub open spec fn sandbox_steps(memory_limit: nat) -> Seq<ScriptStep> {
    seq![
        ScriptStep::OpenLibrary(ScriptLibrary::Coroutine, true),
        ScriptStep::OpenLibrary(ScriptLibrary::Table, true),
        ScriptStep::OpenLibrary(ScriptLibrary::String, true),
        ScriptStep::OpenLibrary(ScriptLibrary::Utf8, true),
        ScriptStep::OpenLibrary(ScriptLibrary::Math, true),
        ScriptStep::LimitMemory(memory_limit, true),
        ScriptStep::RemoveGlobal("print"@, true),
        ScriptStep::RemoveGlobal("dofile"@, true),
        ScriptStep::RemoveGlobal("loadfile"@, true),
        ScriptStep::RemoveGlobal("load"@, true),
        ScriptStep::RemoveGlobal("setmetatable"@, true),
    ]
}

/// The exchanges of reading a position table `{x, y}` that gave `read`: entry 1 as a `u16`,
/// then entry 2 only where entry 1 was one.
pub open spec fn coords_steps(read: CoordsRead) -> Seq<ScriptStep> {
    match read.x {
        None => seq![ScriptStep::ReadU16(LuaKey::Index(1), None)],
        Some(_) => seq![
            ScriptStep::ReadU16(LuaKey::Index(1), read.x),
            ScriptStep::ReadU16(LuaKey::Index(2), read.y),
        ],
    }
}

/// The exchanges of reading a position at `key` that gave `read`: the value as a table, then
/// its coordinates where it is one.
pub open spec fn table_steps(key: LuaKey, read: Option<CoordsRead>) -> Seq<ScriptStep> {
    match read {
        None => seq![ScriptStep::ReadTable(key, false)],
        Some(r) => seq![ScriptStep::ReadTable(key, true)] + coords_steps(r),
    }
}

/// The exchanges of reading the entries 1 to `reads.len()` of a list, in order.
pub open spec fn entries_steps(reads: Seq<Option<CoordsRead>>) -> Seq<ScriptStep>
    decreases reads.len(),
{
    if reads.len() == 0 {
        Seq::empty()
    } else {
        entries_steps(reads.drop_last()) + table_steps(LuaKey::Index(reads.len() as int), reads.last())
    }
}

/// The exchanges of reading the list of positions in the field `name`: the field as a table,
/// then, where it is one, its length and each of its entries.
pub open spec fn list_steps(name: Seq<char>, reads: Option<Seq<Option<CoordsRead>>>) -> Seq<ScriptStep> {
    match reads {
        None => seq![ScriptStep::ReadTable(LuaKey::Field(name), false)],
        Some(v) => seq![ScriptStep::ReadTable(LuaKey::Field(name), true), ScriptStep::Length(v.len())]
            + entries_steps(v),
    }
}

/// The exchanges of reading the table that the script's `update` returned: the field
/// `GameOver` as a string, then, where it is not one, the `target` and the `obstacles`.
pub open spec fn reply_steps(reply: UpdateReplyView) -> Seq<ScriptStep> {
    match reply.game_over {
        Some(reason) => seq![ScriptStep::ReadString(LuaKey::Field("GameOver"@), Some(reason))],
        None => seq![ScriptStep::ReadString(LuaKey::Field("GameOver"@), None)]
            + table_steps(LuaKey::Field("target"@), reply.target)
            + list_steps("obstacles"@, reply.obstacles),
    }
}

/// The exchanges of reading the player's first position from the global `new_player`.
pub open spec fn player_steps(read: Option<CoordsRead>) -> Seq<ScriptStep> {
    table_steps(LuaKey::Global("new_player"@), read)
}

/// The exchanges of looking up the script's `update` and calling it with `time` and `player`;
/// `called` says whether the call returned a table.
pub open spec fn update_call_steps(time: i64, player: Option<(u16, u16)>, called: bool) -> Seq<ScriptStep> {
    seq![
        ScriptStep::ReadFunction(LuaKey::Global("update"@), true),
        ScriptStep::CallUpdate(time, player, called),
    ]
}

} // verus!
