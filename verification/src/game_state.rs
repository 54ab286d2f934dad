use vstd::prelude::*;

verus! {

/// What is on the board while a game runs: the player, the target and the obstacles.
#[derive(Clone, Debug, PartialEq, Eq)]
pub struct GameObjects {
    pub player: Option<(u16, u16)>,
    pub target: Option<(u16, u16)>,
    pub obstacles: Vec<(u16, u16)>,
}

/// The state of a game: not started yet, running, or over with a reason.
#[derive(Clone, Debug, PartialEq, Eq)]
pub enum GameState {
    Undef,
    Running(GameObjects),
    GameOver(String, GameObjects),
}

/// What a cell of the board shows.
#[derive(Clone, Copy, Debug, PartialEq, Eq, Structural)]
pub enum CellState {
    Empty,
    RedEmpty,
    Player,
    Target,
    Obstacle,
}

/// The objects of a game as mathematical values.
pub struct ObjectsView {
    pub player: Option<(u16, u16)>,
    pub target: Option<(u16, u16)>,
    pub obstacles: Seq<(u16, u16)>,
}

/// A game state as mathematical values.
pub enum GameStateView {
    Undef,
    Running(ObjectsView),
    GameOver(Seq<char>, ObjectsView),
}

impl View for GameObjects {
    type V = ObjectsView;

    open spec fn view(&self) -> ObjectsView {
        ObjectsView { player: self.player, target: self.target, obstacles: self.obstacles@ }
    }
}

impl View for GameState {
    type V = GameStateView;

    open spec fn view(&self) -> GameStateView {
        match self {
            GameState::Undef => GameStateView::Undef,
            GameState::Running(objs) => GameStateView::Running(objs@),
            GameState::GameOver(reason, objs) => GameStateView::GameOver(reason@, objs@),
        }
    }
}

/// The objects of a game that has none: no player, no target, no obstacle.
pub open spec fn no_objects() -> ObjectsView {
    ObjectsView { player: None, target: None, obstacles: Seq::empty() }
}

/// What the cell `(i, j)` shows among `objs`: the player first, then the target, then an
/// obstacle, and `background` where none of them stands.
pub open spec fn objects_cell(objs: ObjectsView, i: u16, j: u16, background: CellState) -> CellState {
    if objs.player == Some((i, j)) {
        CellState::Player
    } else if objs.target == Some((i, j)) {
        CellState::Target
    } else if objs.obstacles.contains((i, j)) {
        CellState::Obstacle
    } else {
        background
    }
}

/// What the cell `(i, j)` shows in `state`: nothing before the game starts, the objects
/// on an empty background while it runs, and the last objects on a red background once
/// it is over.
pub open spec fn spec_cell_state(state: GameStateView, i: u16, j: u16) -> CellState {
    match state {
        GameStateView::Undef => CellState::Empty,
        GameStateView::Running(objs) => objects_cell(objs, i, j, CellState::Empty),
        GameStateView::GameOver(_, objs) => objects_cell(objs, i, j, CellState::RedEmpty),
    }
}

/// Whether `obstacles` holds the cell `(i, j)`.
fn has_obstacle(obstacles: &Vec<(u16, u16)>, i: u16, j: u16) -> (found: bool)
    ensures
        found == obstacles@.contains((i, j)),
{
    let mut k: usize = 0;
    while k < obstacles.len()
        invariant
            k <= obstacles.len(),
            forall|m: int| 0 <= m < k ==> obstacles@[m] != (i, j),
        decreases obstacles.len() - k,
    {
        let (x, y) = obstacles[k];
        if x == i && y == j {
            assert(obstacles@[k as int] == (i, j));
            return true;
        }
        k = k + 1;
    }
    false
}

/// What the cell `(i, j)` shows among `objs` on the given background.
fn cell_of_objects(objs: &GameObjects, i: u16, j: u16, background: CellState) -> (cell: CellState)
    ensures
        cell == objects_cell(objs@, i, j, background),
{
    if let Some((x, y)) = objs.player {
        if x == i && y == j {
            return CellState::Player;
        }
    }
    if let Some((x, y)) = objs.target {
        if x == i && y == j {
            return CellState::Target;
        }
    }
    if has_obstacle(&objs.obstacles, i, j) {
        return CellState::Obstacle;
    }
    background
}

impl GameState {
    /// What the cell in column `i` and row `j` of the board shows.
    pub fn cell_state(&self, i: u16, j: u16) -> (cell: CellState)
        ensures
            cell == spec_cell_state(self@, i, j),
    {
        match self {
            GameState::Running(objs) => cell_of_objects(objs, i, j, CellState::Empty),
            GameState::GameOver(_, objs) => cell_of_objects(objs, i, j, CellState::RedEmpty),
            GameState::Undef => CellState::Empty,
        }
    }
}

/// The player is shown where it stands, before the target and the obstacles there, both
/// while the game runs and once it is over.
pub proof fn lemma_player_shown_first(reason: Seq<char>, objs: ObjectsView)
    requires
        objs.player is Some,
    ensures
        spec_cell_state(GameStateView::Running(objs), (objs.player->0).0, (objs.player->0).1) == CellState::Player,
        spec_cell_state(GameStateView::GameOver(reason, objs), (objs.player->0).0, (objs.player->0).1) == CellState::Player,
{
}

/// Every obstacle of the list is drawn, wherever it stands in the list: in a cell that holds
/// neither the player nor the target, the board shows an obstacle exactly where the cell is
/// one of the obstacles, whether the game runs or is over; and every cell of the list shows
/// the player, the target or an obstacle.
pub proof fn lemma_every_obstacle_is_drawn(reason: Seq<char>, objs: ObjectsView, i: u16, j: u16)
    ensures
        objs.player != Some((i, j)) && objs.target != Some((i, j)) ==> {
            &&& (spec_cell_state(GameStateView::Running(objs), i, j) == CellState::Obstacle
                <==> exists|k: int| 0 <= k < objs.obstacles.len() && objs.obstacles[k] == (i, j))
            &&& (spec_cell_state(GameStateView::GameOver(reason, objs), i, j) == CellState::Obstacle
                <==> exists|k: int| 0 <= k < objs.obstacles.len() && objs.obstacles[k] == (i, j))
        },
        forall|k: int|
            #![trigger objs.obstacles[k]]
            0 <= k < objs.obstacles.len() ==> {
                let c = spec_cell_state(GameStateView::Running(objs), objs.obstacles[k].0, objs.obstacles[k].1);
                c == CellState::Player || c == CellState::Target || c == CellState::Obstacle
            },
{
    assert forall|k: int|
        #![trigger objs.obstacles[k]]
        0 <= k < objs.obstacles.len() implies {
            let c = spec_cell_state(GameStateView::Running(objs), objs.obstacles[k].0, objs.obstacles[k].1);
            c == CellState::Player || c == CellState::Target || c == CellState::Obstacle
        } by {
        assert(objs.obstacles.contains(objs.obstacles[k]));
    }
}

/// What a cell shows, from what stands on it: the player where the player stands; else the
/// target where it stands; else an obstacle where one of the obstacles is the cell; else
/// nothing, which a running game shows empty and a game that is over shows red. A game that
/// has not started shows every cell empty.
pub proof fn lemma_cell_shows_what_stands_on_it(reason: Seq<char>, objs: ObjectsView, i: u16, j: u16)
    ensures
        objs.player == Some((i, j)) ==> spec_cell_state(GameStateView::Running(objs), i, j) == CellState::Player
            && spec_cell_state(GameStateView::GameOver(reason, objs), i, j) == CellState::Player,
        objs.player != Some((i, j)) && objs.target == Some((i, j)) ==> spec_cell_state(GameStateView::Running(objs), i, j)
            == CellState::Target && spec_cell_state(GameStateView::GameOver(reason, objs), i, j) == CellState::Target,
        objs.player != Some((i, j)) && objs.target != Some((i, j)) && (forall|k: int|
            0 <= k < objs.obstacles.len() ==> objs.obstacles[k] != (i, j)) ==> spec_cell_state(
            GameStateView::Running(objs),
            i,
            j,
        ) == CellState::Empty && spec_cell_state(GameStateView::GameOver(reason, objs), i, j) == CellState::RedEmpty,
        spec_cell_state(GameStateView::Undef, i, j) == CellState::Empty,
{
}

/// Before a game starts, every cell of the board is empty.
pub proof fn lemma_undef_board_is_empty(i: u16, j: u16)
    ensures
        spec_cell_state(GameStateView::Undef, i, j) == CellState::Empty,
{
}

/// A game that is over shows the objects it ran with, in the same cells, and paints red
/// every cell that the running game showed empty: no cell of it is empty, and no cell of
/// a running game is red.
pub proof fn lemma_game_over_paints_background(reason: Seq<char>, objs: ObjectsView, i: u16, j: u16)
    ensures
        spec_cell_state(GameStateView::GameOver(reason, objs), i, j) == (
            if spec_cell_state(GameStateView::Running(objs), i, j) == CellState::Empty {
                CellState::RedEmpty
            } else {
                spec_cell_state(GameStateView::Running(objs), i, j)
            }
        ),
        spec_cell_state(GameStateView::GameOver(reason, objs), i, j) != CellState::Empty,
        spec_cell_state(GameStateView::Running(objs), i, j) != CellState::RedEmpty,
{
}

} // verus!
