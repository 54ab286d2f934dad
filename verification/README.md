# raa_tui

A terminal game whose rules live in a Lua script: the script places the player, the
target and the obstacles on a 16 x 16 board and says when the game is over; the player
moves with commands.

- `src/` is the verified library (Verus): the board (`game_state`), the player's moves
  (`movement`), what a script's reply turns into (`update_reply`), the game model that
  drives the Lua interpreter (`game_model`, through the trusted calls of `lua_bridge`),
  the settings (`config`), the record of the library's exchanges with the interpreter
  (`script_trace`), the key sequences that end the program (`events`) and the
  application state (`app_model`, `app`).
- `app/` is the program around it: the command line, file reading, the terminal and the
  event threads.
- `tests/` runs the library.

The game's script runs in a restricted interpreter: no `os`, `io` or `package` library,
no `print`, `dofile`, `loadfile`, `load` or `setmetatable`, and a memory bound. Tables
therefore have no metatables, and the library reads them raw.
