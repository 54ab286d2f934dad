use vstd::prelude::*;

use mlua::{Function, Lua, LuaOptions, StdLib, Table};

use crate::script_trace::{sandbox_steps, LuaKey, ScriptLibrary, ScriptStep, ScriptTrace};

verus! {

/// A Lua interpreter of the `mlua` crate.
#[verifier::external_type_specification]
#[verifier::external_body]
pub struct ExLua(mlua::Lua);

/// A handle on a table that lives inside a Lua interpreter.
#[verifier::external_type_specification]
#[verifier::external_body]
pub struct ExTable<'lua>(mlua::Table<'lua>);

/// A handle on a function that lives inside a Lua interpreter.
#[verifier::external_type_specification]
#[verifier::external_body]
pub struct ExFunction<'lua>(mlua::Function<'lua>);

/// An error that the Lua interpreter reports.
#[verifier::external_type_specification]
#[verifier::external_body]
pub struct ExLuaError(mlua::Error);

/// An interpreter in which a script cannot leave the process, read a file or wait for input,
/// and in which no table can have a metatable, hence no metamethod and no finalizer: it is
/// made only by `make_sandbox`, whose contract lists what it holds. Its memory is bounded;
/// past the bound an allocation fails with an error. Nothing bounds the number of
/// instructions that a run of the script executes: a script that loops for ever keeps the
/// run from returning, and no contract below excludes it.
pub struct Sandbox {
    lua: Lua,
}

// What the functions below read or run depends on the script and on what it left in the
// interpreter, so no contract states a value that they return. What each of them claims is
// only the step that it adds to the trace: which exchange it made, with which arguments,
// and what came of it. Table accesses are raw, and the tables of a sandbox have no
// metatable, so a read runs no script code: no metamethod, and no finalizer during the
// collection steps that a read may take. A run or call of the script returns only where the
// script stops: nothing here bounds it.

/// `Lua::new_with` with no library but the base one, in safe mode. Nothing is claimed of the
/// interpreter it returns; it fails only where the interpreter cannot be made.
#[verifier::external_body]
fn lua_base_only() -> Result<Lua, mlua::Error> {
    Lua::new_with(StdLib::NONE, LuaOptions::default())
}

/// `Lua::load_from_std_lib` of the standard library `lib`. Claims only that the loading is
/// recorded, with whether it succeeded.
#[verifier::external_body]
fn lua_open_library(lua: &Lua, lib: ScriptLibrary, trace: &mut ScriptTrace) -> (res: Result<(), mlua::Error>)
    ensures
        final(trace)@ == old(trace)@.push(ScriptStep::OpenLibrary(lib, res is Ok)),
{
    lua.load_from_std_lib(match lib {
        ScriptLibrary::Coroutine => StdLib::COROUTINE,
        ScriptLibrary::Table => StdLib::TABLE,
        ScriptLibrary::String => StdLib::STRING,
        ScriptLibrary::Utf8 => StdLib::UTF8,
        ScriptLibrary::Math => StdLib::MATH,
    })
}

/// `Lua::set_memory_limit` to `limit` bytes. Claims only that the setting is recorded, with
/// whether it succeeded.
#[verifier::external_body]
fn lua_limit_memory(lua: &Lua, limit: usize, trace: &mut ScriptTrace) -> (res: Result<usize, mlua::Error>)
    ensures
        final(trace)@ == old(trace)@.push(ScriptStep::LimitMemory(limit as nat, res is Ok)),
{
    lua.set_memory_limit(limit)
}

/// `Table::raw_remove` of the global `name`. Claims only that the removal is recorded, with
/// whether it succeeded.
#[verifier::external_body]
fn lua_remove_global(lua: &Lua, name: &str, trace: &mut ScriptTrace) -> (res: Result<(), mlua::Error>)
    ensures
        final(trace)@ == old(trace)@.push(ScriptStep::RemoveGlobal(name@, res is Ok)),
{
    lua.globals().raw_remove(name)
}

/// Makes the interpreter that runs a game's script: the base library and the coroutine,
/// table, string, utf8 and math libraries (not `os`, `io` or `package`), memory bounded to
/// `memory_limit` bytes, and without the globals `print`, `dofile`, `loadfile`, `load` and
/// `setmetatable` (terminal output, reading files or standard input, loading bytecode, and
/// giving tables metatables). Fails where any of these steps fails.
pub(crate) fn make_sandbox(memory_limit: usize, trace: &mut ScriptTrace) -> (res: Result<Sandbox, mlua::Error>)
    ensures
        res is Ok ==> final(trace)@ == old(trace)@ + sandbox_steps(memory_limit as nat),
{
    let lua = lua_base_only()?;
    lua_open_library(&lua, ScriptLibrary::Coroutine, trace)?;
    lua_open_library(&lua, ScriptLibrary::Table, trace)?;
    lua_open_library(&lua, ScriptLibrary::String, trace)?;
    lua_open_library(&lua, ScriptLibrary::Utf8, trace)?;
    lua_open_library(&lua, ScriptLibrary::Math, trace)?;
    lua_limit_memory(&lua, memory_limit, trace)?;
    lua_remove_global(&lua, "print", trace)?;
    lua_remove_global(&lua, "dofile", trace)?;
    lua_remove_global(&lua, "loadfile", trace)?;
    lua_remove_global(&lua, "load", trace)?;
    lua_remove_global(&lua, "setmetatable", trace)?;
    Ok(Sandbox { lua })
}

/// `Lua::load` and `Chunk::exec` of `code`. Claims only that the run is recorded, with
/// whether it succeeded; where the script loops for ever, it does not return.
#[verifier::external_body]
pub(crate) fn lua_exec(sandbox: &Sandbox, code: &str, trace: &mut ScriptTrace) -> (res: Result<(), mlua::Error>)
    ensures
        final(trace)@ == old(trace)@.push(ScriptStep::Run(code@, res is Ok)),
{
    sandbox.lua.load(code).exec()
}

/// `Table::raw_get` on the globals: the global `name` as a table. Claims only that the read
/// is recorded, with whether the value is a table.
#[verifier::external_body]
pub(crate) fn lua_global_table<'lua>(sandbox: &'lua Sandbox, name: &str, trace: &mut ScriptTrace) -> (res: Result<Table<'lua>, mlua::Error>)
    ensures
        final(trace)@ == old(trace)@.push(ScriptStep::ReadTable(LuaKey::Global(name@), res is Ok)),
{
    sandbox.lua.globals().raw_get::<&str, Table>(name)
}

/// `Table::raw_get` on the globals: the global `name` as a function. Claims only that the
/// read is recorded, with whether the value is a function.
#[verifier::external_body]
pub(crate) fn lua_global_function<'lua>(sandbox: &'lua Sandbox, name: &str, trace: &mut ScriptTrace) -> (res: Result<Function<'lua>, mlua::Error>)
    ensures
        final(trace)@ == old(trace)@.push(ScriptStep::ReadFunction(LuaKey::Global(name@), res is Ok)),
{
    sandbox.lua.globals().raw_get::<&str, Function>(name)
}

/// `Table::raw_get` with a string key: the field `name` of `tbl` as a table. Claims only that
/// the read is recorded, with whether the value is a table.
#[verifier::external_body]
pub(crate) fn table_field_table<'lua>(tbl: &Table<'lua>, name: &str, trace: &mut ScriptTrace) -> (res: Result<Table<'lua>, mlua::Error>)
    ensures
        final(trace)@ == old(trace)@.push(ScriptStep::ReadTable(LuaKey::Field(name@), res is Ok)),
{
    tbl.raw_get::<&str, Table>(name)
}

/// `Table::raw_get` with a string key: the field `name` of `tbl` as a string. Claims that the
/// read is recorded with the string it gave, where it gave one.
#[verifier::external_body]
pub(crate) fn table_field_string<'lua>(tbl: &Table<'lua>, name: &str, trace: &mut ScriptTrace) -> (res: Result<String, mlua::Error>)
    ensures
        final(trace)@ == old(trace)@.push(ScriptStep::ReadString(
            LuaKey::Field(name@),
            match res {
                Ok(s) => Some(s@),
                Err(_) => None,
            },
        )),
{
    tbl.raw_get::<&str, String>(name)
}

/// `Table::raw_get` with an integer key: the entry `index` of `tbl` as a table. Claims only
/// that the read is recorded, with whether the value is a table.
#[verifier::external_body]
pub(crate) fn table_entry_table<'lua>(tbl: &Table<'lua>, index: usize, trace: &mut ScriptTrace) -> (res: Result<Table<'lua>, mlua::Error>)
    ensures
        final(trace)@ == old(trace)@.push(ScriptStep::ReadTable(LuaKey::Index(index as int), res is Ok)),
{
    tbl.raw_get::<usize, Table>(index)
}

/// `Table::raw_get` with an integer key: the entry `index` of `tbl` as a `u16`. Claims that
/// the read is recorded with the number it gave, where it gave one.
#[verifier::external_body]
pub(crate) fn table_entry_u16<'lua>(tbl: &Table<'lua>, index: usize, trace: &mut ScriptTrace) -> (res: Result<u16, mlua::Error>)
    ensures
        final(trace)@ == old(trace)@.push(ScriptStep::ReadU16(
            LuaKey::Index(index as int),
            match res {
                Ok(v) => Some(v),
                Err(_) => None,
            },
        )),
{
    tbl.raw_get::<usize, u16>(index)
}

/// `Table::raw_len`: the length of `tbl`, as the `#` operator gives it without metamethods.
/// Claims that the read is recorded with the length it gave.
#[verifier::external_body]
pub(crate) fn table_len<'lua>(tbl: &Table<'lua>, trace: &mut ScriptTrace) -> (len: usize)
    ensures
        final(trace)@ == old(trace)@.push(ScriptStep::Length(len as nat)),
{
    tbl.raw_len()
}

/// `Function::call` of `f` with the time as its one argument, expecting a table back. Claims
/// only that the call is recorded with its time, no position, and whether a table came back;
/// where the script loops for ever, it does not return.
#[verifier::external_body]
pub(crate) fn call_with_time<'lua>(sandbox: &'lua Sandbox, f: &Function<'lua>, time: i64, trace: &mut ScriptTrace) -> (res: Result<Table<'lua>, mlua::Error>)
    ensures
        final(trace)@ == old(trace)@.push(ScriptStep::CallUpdate(time, None, res is Ok)),
{
    f.call::<_, Table>(mlua::Value::Integer(time))
}

/// `Lua::create_table_from` of `{[1] = x, [2] = y}`, then `Function::call` of `f` with the time
/// and that table, expecting a table back. Claims only that the call is recorded with its
/// time, the position `(x, y)`, and whether a table came back (not where the table could not
/// be made); where the script loops for ever, it does not return.
#[verifier::external_body]
pub(crate) fn call_with_time_and_position<'lua>(
    sandbox: &'lua Sandbox,
    f: &Function<'lua>,
    time: i64,
    x: u16,
    y: u16,
    trace: &mut ScriptTrace,
) -> (res: Result<Table<'lua>, mlua::Error>)
    ensures
        final(trace)@ == old(trace)@.push(ScriptStep::CallUpdate(time, Some((x, y)), res is Ok)),
{
    let position = sandbox.lua.create_table_from([(1, x), (2, y)])?;
    f.call::<_, Table>((mlua::Value::Integer(time), mlua::Value::Table(position)))
}

} // verus!
