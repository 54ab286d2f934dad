use vstd::prelude::*;

verus! {

/// A command that moves the player one cell on the board.
#[derive(Clone, Copy, Debug, PartialEq, Eq, Structural)]
pub enum GameCommand {
    Up,
    Down,
    Left,
    Right,
}

/// The side of the square board: coordinates wrap around modulo this number.
pub open spec fn board_size() -> int {
    16
}

/// The coordinate one step below `c` on the board, wrapping from the first cell to the last.
pub open spec fn step_back(c: u16) -> int {
    (c + board_size() - 1) % board_size()
}

/// The coordinate one step above `c` on the board, wrapping from the last cell to the first.
pub open spec fn step_forward(c: u16) -> int {
    (c + 1) % board_size()
}

/// Where a player at `p` lands after `cmd`.
pub open spec fn moved(p: (u16, u16), cmd: GameCommand) -> (u16, u16) {
    match cmd {
        GameCommand::Up => (p.0, step_back(p.1) as u16),
        GameCommand::Down => (p.0, step_forward(p.1) as u16),
        GameCommand::Left => (step_back(p.0) as u16, p.1),
        GameCommand::Right => (step_forward(p.0) as u16, p.1),
    }
}

/// The player's position after an optional command: unchanged where there is no
/// player or no command.
pub open spec fn spec_move_player(opt_player: Option<(u16, u16)>, opt_cmd: Option<GameCommand>) -> Option<(u16, u16)> {
    match (opt_player, opt_cmd) {
        (Some(p), Some(cmd)) => Some(moved(p, cmd)),
        _ => opt_player,
    }
}

/// Whether the move can be computed: a step forward adds one to the coordinate,
/// which must stay a `u16`.
pub open spec fn move_fits(opt_player: Option<(u16, u16)>, opt_cmd: Option<GameCommand>) -> bool {
    match (opt_player, opt_cmd) {
        (Some(p), Some(GameCommand::Down)) => p.1 < u16::MAX,
        (Some(p), Some(GameCommand::Right)) => p.0 < u16::MAX,
        _ => true,
    }
}

/// Keeping the low four bits of the wrapped predecessor of `c` is the step back on the board.
proof fn lemma_mask_step_back(c: u16, below: u16)
    requires
        below == (if c == 0 { u16::MAX as int } else { c - 1 }),
    ensures
        0b1111 & below == step_back(c),
{
    assert(below == (if c == 0 { 0xffffu16 } else { (c - 1) as u16 }) ==> 0b1111 & below == ((c + 15) % 16) as u16) by (bit_vector);
}

/// Keeping the low four bits of the successor of `c` is the step forward on the board.
proof fn lemma_mask_step_forward(c: u16, above: u16)
    requires
        above == c + 1,
    ensures
        0b1111 & above == step_forward(c),
{
    assert(above == c + 1 ==> 0b1111 & above == ((c + 1) % 16) as u16) by (bit_vector);
}

/// Moves the player one cell in the commanded direction on the 16 x 16 board,
/// wrapping around at the edges.
pub fn move_player(opt_player: Option<(u16, u16)>, opt_cmd: Option<GameCommand>) -> (res: Option<(u16, u16)>)
    requires
        move_fits(opt_player, opt_cmd),
    ensures
        res == spec_move_player(opt_player, opt_cmd),
{
    match (opt_player, opt_cmd) {
        (Some(player), Some(command)) => match command {
            GameCommand::Up => {
                let below = player.1.wrapping_sub(1);
                proof { lemma_mask_step_back(player.1, below); }
                Some((player.0, 0b1111 & below))
            },
            GameCommand::Down => {
                let above = player.1 + 1;
                proof { lemma_mask_step_forward(player.1, above); }
                Some((player.0, 0b1111 & above))
            },
            GameCommand::Left => {
                let below = player.0.wrapping_sub(1);
                proof { lemma_mask_step_back(player.0, below); }
                Some((0b1111 & below, player.1))
            },
            GameCommand::Right => {
                let above = player.0 + 1;
                proof { lemma_mask_step_forward(player.0, above); }
                Some((0b1111 & above, player.1))
            },
        },
        _ => opt_player,
    }
}

/// Whether `p` is a cell of the 16 x 16 board.
pub open spec fn on_board(p: (u16, u16)) -> bool {
    p.0 < board_size() && p.1 < board_size()
}

/// The command that goes back the way `cmd` went.
pub open spec fn opposite(cmd: GameCommand) -> GameCommand {
    match cmd {
        GameCommand::Up => GameCommand::Down,
        GameCommand::Down => GameCommand::Up,
        GameCommand::Left => GameCommand::Right,
        GameCommand::Right => GameCommand::Left,
    }
}

/// One step on the board: `Up` and `Left` take one from the coordinate they change, and
/// wrap from the first cell to the last; `Down` and `Right` add one, and wrap from the last
/// cell to the first; the other coordinate stays. Without a player or without a command,
/// nothing moves.
pub proof fn lemma_move_is_one_step(p: (u16, u16), cmd: GameCommand)
    requires
        on_board(p),
    ensures
        spec_move_player(Some(p), Some(cmd)) == Some(match cmd {
            GameCommand::Up => (p.0, if p.1 == 0 { 15u16 } else { (p.1 - 1) as u16 }),
            GameCommand::Down => (p.0, if p.1 == 15 { 0u16 } else { (p.1 + 1) as u16 }),
            GameCommand::Left => (if p.0 == 0 { 15u16 } else { (p.0 - 1) as u16 }, p.1),
            GameCommand::Right => (if p.0 == 15 { 0u16 } else { (p.0 + 1) as u16 }, p.1),
        }),
        spec_move_player(None, Some(cmd)) == None::<(u16, u16)>,
        spec_move_player(Some(p), None) == Some(p),
{
    lemma_board_steps(p.0 as int);
    lemma_board_steps(p.1 as int);
}

/// The steps of a board coordinate, modulo the board's side.
proof fn lemma_board_steps(c: int)
    requires
        0 <= c < 16,
    ensures
        (c + board_size() - 1) % board_size() == (if c == 0 { 15 } else { c - 1 }),
        (c + 1) % board_size() == (if c == 15 { 0 } else { c + 1 }),
{
    assert((c + 16 - 1) % 16 == (if c == 0 { 15 } else { c - 1 })) by (nonlinear_arith)
        requires
            0 <= c < 16,
    ;
    assert((c + 1) % 16 == (if c == 15 { 0 } else { c + 1 })) by (nonlinear_arith)
        requires
            0 <= c < 16,
    ;
}

/// A move never leaves the board: from a cell of the board, every command lands on a cell
/// of the board.
pub proof fn lemma_move_stays_on_board(p: (u16, u16), cmd: GameCommand)
    requires
        on_board(p),
    ensures
        on_board(moved(p, cmd)),
        spec_move_player(Some(p), Some(cmd)) == Some(moved(p, cmd)),
{
}

/// The coordinate that a command changes always lands on the board, wherever the player
/// stood: the move keeps only its position modulo the board's side.
pub proof fn lemma_moved_coordinate_on_board(p: (u16, u16), cmd: GameCommand)
    ensures
        match cmd {
            GameCommand::Up | GameCommand::Down => moved(p, cmd).1 < board_size() && moved(p, cmd).0 == p.0,
            GameCommand::Left | GameCommand::Right => moved(p, cmd).0 < board_size() && moved(p, cmd).1 == p.1,
        },
{
}

/// Opposite moves undo each other: on the board, moving by `cmd` and then by its opposite
/// brings the player back where it stood.
pub proof fn lemma_opposite_moves_cancel(p: (u16, u16), cmd: GameCommand)
    requires
        on_board(p),
    ensures
        spec_move_player(spec_move_player(Some(p), Some(cmd)), Some(opposite(cmd))) == Some(p),
{
}

/// Sixteen moves in one direction go round the board once and bring the player back.
pub proof fn lemma_round_trip(p: (u16, u16), cmd: GameCommand)
    requires
        on_board(p),
    ensures
        moves_in_a_row(p, cmd, 16) == p,
{
    lemma_moves_in_a_row(p, cmd, 16);
    let k = step_of(cmd);
    assert((p.0 + k * 16) % board_size() == p.0) by {
        vstd::arithmetic::div_mod::lemma_mod_multiples_vanish(k, p.0 as int, 16);
    }
    assert((p.1 + k * 16) % board_size() == p.1) by {
        vstd::arithmetic::div_mod::lemma_mod_multiples_vanish(k, p.1 as int, 16);
    }
}

/// How far one move by `cmd` shifts the coordinate it changes, modulo the board's side.
pub open spec fn step_of(cmd: GameCommand) -> int {
    match cmd {
        GameCommand::Up | GameCommand::Left => board_size() - 1,
        GameCommand::Down | GameCommand::Right => 1,
    }
}

/// `n` moves by `cmd` in a row shift the coordinate that `cmd` changes by `n` steps,
/// modulo the board's side, and keep the other one.
proof fn lemma_moves_in_a_row(p: (u16, u16), cmd: GameCommand, n: nat)
    requires
        on_board(p),
    ensures
        match cmd {
            GameCommand::Up | GameCommand::Down => moves_in_a_row(p, cmd, n) == (
                p.0,
                ((p.1 + step_of(cmd) * n) % board_size()) as u16,
            ),
            GameCommand::Left | GameCommand::Right => moves_in_a_row(p, cmd, n) == (
                ((p.0 + step_of(cmd) * n) % board_size()) as u16,
                p.1,
            ),
        },
    decreases n,
{
    let k = step_of(cmd);
    if n == 0 {
        assert(p.0 as int % board_size() == p.0);
        assert(p.1 as int % board_size() == p.1);
    } else {
        lemma_moves_in_a_row(p, cmd, (n - 1) as nat);
        let c: int = match cmd {
            GameCommand::Up | GameCommand::Down => p.1 as int,
            GameCommand::Left | GameCommand::Right => p.0 as int,
        };
        assert(((c + k * (n - 1)) % 16 + k) % 16 == (c + k * n) % 16) by {
            vstd::arithmetic::div_mod::lemma_add_mod_noop(c + k * (n - 1), k, 16);
            vstd::arithmetic::div_mod::lemma_mod_twice(k, 16);
            vstd::arithmetic::mul::lemma_mul_is_distributive_sub(k, n as int, 1);
        }
    }
}

/// Where `n` moves by `cmd` in a row lead from `p`.
pub open spec fn moves_in_a_row(p: (u16, u16), cmd: GameCommand, n: nat) -> (u16, u16)
    decreases n,
{
    if n == 0 {
        p
    } else {
        moved(moves_in_a_row(p, cmd, (n - 1) as nat), cmd)
    }
}

} // verus!
