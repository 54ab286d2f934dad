use vstd::prelude::*;

use crate::game_state::{no_objects, GameObjects, GameState, GameStateView, ObjectsView};

verus! {

/// What reading a position `{x, y}` of a script's reply gave: each coordinate, where the
/// entry at index 1 or 2 reads as a `u16`.
#[derive(Clone, Copy, Debug, PartialEq, Eq, Structural)]
pub struct CoordsRead {
    pub x: Option<u16>,
    pub y: Option<u16>,
}

/// What the library read of the table that the script's `update` function returned.
///
/// `game_over` is the `GameOver` field where it reads as a string. `target` is `None`
/// where the `target` field is not a table. `obstacles` is `None` where the `obstacles`
/// field is not a table or has no length; otherwise it holds, for each index from 1 to
/// its length, what reading that entry gave (`None` where the entry is not a table).
#[derive(Clone, Debug)]
pub struct UpdateReply {
    pub game_over: Option<String>,
    pub target: Option<CoordsRead>,
    pub obstacles: Option<Vec<Option<CoordsRead>>>,
}

/// An [`UpdateReply`] as mathematical values.
pub struct UpdateReplyView {
    pub game_over: Option<Seq<char>>,
    pub target: Option<CoordsRead>,
    pub obstacles: Option<Seq<Option<CoordsRead>>>,
}

impl View for UpdateReply {
    type V = UpdateReplyView;

    open spec fn view(&self) -> UpdateReplyView {
        UpdateReplyView {
            game_over: match self.game_over {
                Some(s) => Some(s@),
                None => None,
            },
            target: self.target,
            obstacles: match self.obstacles {
                Some(v) => Some(v@),
                None => None,
            },
        }
    }
}

/// The position that a read gives: both coordinates where both were read, else none.
pub open spec fn spec_coords(read: Option<CoordsRead>) -> Option<(u16, u16)> {
    match read {
        Some(CoordsRead { x: Some(x), y: Some(y) }) => Some((x, y)),
        _ => None,
    }
}

/// The positions that a list of reads gives, in order, skipping the entries that give none.
pub open spec fn spec_positions(reads: Seq<Option<CoordsRead>>) -> Seq<(u16, u16)>
    decreases reads.len(),
{
    if reads.len() == 0 {
        Seq::empty()
    } else {
        let front = spec_positions(reads.drop_last());
        match spec_coords(reads.last()) {
            Some(p) => front.push(p),
            None => front,
        }
    }
}

/// Where every entry of a list reads as a full position, the list gives all of them, in
/// the order of the list.
pub proof fn lemma_full_reads_keep_every_position(reads: Seq<Option<CoordsRead>>)
    requires
        forall|k: int| 0 <= k < reads.len() ==> #[trigger] spec_coords(reads[k]) is Some,
    ensures
        spec_positions(reads) == reads.map_values(|r: Option<CoordsRead>| spec_coords(r)->0),
    decreases reads.len(),
{
    if reads.len() > 0 {
        let front = reads.drop_last();
        assert forall|k: int| 0 <= k < front.len() implies #[trigger] spec_coords(front[k]) is Some by {
            assert(front[k] == reads[k]);
        }
        lemma_full_reads_keep_every_position(front);
        assert(spec_coords(reads[reads.len() - 1]) is Some);
        assert(reads.map_values(|r: Option<CoordsRead>| spec_coords(r)->0)
            == front.map_values(|r: Option<CoordsRead>| spec_coords(r)->0).push(spec_coords(reads.last())->0));
    }
}

/// The positions a list gives are never more than its entries, and each of them is a full
/// read of one entry.
pub proof fn lemma_positions_come_from_entries(reads: Seq<Option<CoordsRead>>)
    ensures
        spec_positions(reads).len() <= reads.len(),
        forall|m: int| #![trigger spec_positions(reads)[m]] 0 <= m < spec_positions(reads).len() ==> exists|k: int|
            0 <= k < reads.len() && spec_coords(#[trigger] reads[k]) == Some(spec_positions(reads)[m]),
    decreases reads.len(),
{
    if reads.len() > 0 {
        let front = reads.drop_last();
        lemma_positions_come_from_entries(front);
        let fp = spec_positions(front);
        assert forall|m: int| #![trigger spec_positions(reads)[m]] 0 <= m < spec_positions(reads).len() implies exists|k: int|
            0 <= k < reads.len() && spec_coords(#[trigger] reads[k]) == Some(spec_positions(reads)[m]) by {
            if m < fp.len() {
                assert(fp[m] == spec_positions(reads)[m]);
                let k = choose|k: int| 0 <= k < front.len() && spec_coords(#[trigger] front[k]) == Some(fp[m]);
                assert(reads[k] == front[k]);
            } else {
                assert(reads[reads.len() - 1] == reads.last());
            }
        }
    }
}

/// The obstacles that a reply lists: none where the list could not be read.
pub open spec fn spec_obstacles(reads: Option<Seq<Option<CoordsRead>>>) -> Seq<(u16, u16)> {
    match reads {
        Some(s) => spec_positions(s),
        None => Seq::empty(),
    }
}

/// The objects that a game keeps once it is over: those it ran with, or none.
pub open spec fn kept_objects(prev: GameStateView) -> ObjectsView {
    match prev {
        GameStateView::Running(objs) => objs,
        _ => no_objects(),
    }
}

/// The state that follows `prev` when the script's reply is `reply` and the player stands
/// at `player`: over, with the reason that the reply gives, where it gives one; else
/// running with the player, the target and the obstacles of the reply.
pub open spec fn spec_state_after_update(
    prev: GameStateView,
    player: Option<(u16, u16)>,
    reply: UpdateReplyView,
) -> GameStateView {
    match reply.game_over {
        Some(reason) => GameStateView::GameOver(reason, kept_objects(prev)),
        None => GameStateView::Running(
            ObjectsView {
                player,
                target: spec_coords(reply.target),
                obstacles: spec_obstacles(reply.obstacles),
            },
        ),
    }
}

/// A position is kept only where both its coordinates were read, and then it is exactly
/// those two coordinates, x first.
pub proof fn lemma_coords_need_both(read: Option<CoordsRead>)
    ensures
        spec_coords(read) is Some <==> (read is Some && read->0.x is Some && read->0.y is Some),
        spec_coords(read) is Some ==> spec_coords(read) == Some((read->0.x->0, read->0.y->0)),
{
}

/// The obstacles of a list are read piece by piece: the list `a + b` gives what `a` gives
/// followed by what `b` gives, wherever it is cut.
pub proof fn lemma_positions_concat(a: Seq<Option<CoordsRead>>, b: Seq<Option<CoordsRead>>)
    ensures
        spec_positions(a + b) == spec_positions(a) + spec_positions(b),
    decreases b.len(),
{
    if b.len() == 0 {
        assert(a + b == a);
        assert(spec_positions(a) + spec_positions(b) == spec_positions(a));
    } else {
        assert((a + b).drop_last() == a + b.drop_last());
        assert((a + b).last() == b.last());
        lemma_positions_concat(a, b.drop_last());
        match spec_coords(b.last()) {
            Some(p) => {
                assert((spec_positions(a) + spec_positions(b.drop_last())).push(p) == spec_positions(a) + spec_positions(
                    b.drop_last(),
                ).push(p));
            },
            None => {},
        }
    }
}

/// A list of one entry gives that entry's position where both its coordinates were read,
/// and nothing otherwise. With the law above, every fully read entry of a list is kept, in
/// order, and no other.
pub proof fn lemma_positions_single(read: Option<CoordsRead>)
    ensures
        spec_positions(seq![read]) == match read {
            Some(CoordsRead { x: Some(x), y: Some(y) }) => seq![(x, y)],
            _ => Seq::<(u16, u16)>::empty(),
        },
{
    assert(seq![read].drop_last() == Seq::<Option<CoordsRead>>::empty());
    assert(seq![read].last() == read);
    assert(spec_positions(Seq::<Option<CoordsRead>>::empty()) == Seq::<(u16, u16)>::empty());
    assert(Seq::<(u16, u16)>::empty().push((0u16, 0u16)) == seq![(0u16, 0u16)]);
    match read {
        Some(CoordsRead { x: Some(x), y: Some(y) }) => {
            assert(Seq::<(u16, u16)>::empty().push((x, y)) == seq![(x, y)]);
        },
        _ => {},
    }
}

/// A reply without a reason to end the game decides the whole next state but the player:
/// the game runs with the player handed to the script, the target is the reply's (none where
/// the reply gives none), and the obstacles are the reply's (none where it gives no list).
/// Nothing of the state before carries over: two states before give the same state after.
pub proof fn lemma_running_state_comes_from_reply(
    prev1: GameStateView,
    prev2: GameStateView,
    player: Option<(u16, u16)>,
    reply: UpdateReplyView,
)
    requires
        reply.game_over is None,
    ensures
        spec_state_after_update(prev1, player, reply) == spec_state_after_update(prev2, player, reply),
        spec_state_after_update(prev1, player, reply) is Running,
        spec_state_after_update(prev1, player, reply)->Running_0.player == player,
        spec_state_after_update(prev1, player, reply)->Running_0.target == (match reply.target {
            Some(CoordsRead { x: Some(x), y: Some(y) }) => Some((x, y)),
            _ => None,
        }),
        reply.obstacles is None ==> spec_state_after_update(prev1, player, reply)->Running_0.obstacles.len() == 0,
        reply.obstacles matches Some(v) ==> spec_state_after_update(prev1, player, reply)->Running_0.obstacles
            == spec_positions(v),
{
}

/// A reply with a reason ends the game with that reason: it keeps the objects of a running
/// game as they were, and a game that was not running ends with no player, no target and no
/// obstacle. What the reply says of the target or obstacles does not matter.
pub proof fn lemma_game_over_comes_from_reply(prev: GameStateView, player: Option<(u16, u16)>, reply: UpdateReplyView)
    requires
        reply.game_over is Some,
    ensures
        spec_state_after_update(prev, player, reply) == (match prev {
            GameStateView::Running(objs) => GameStateView::GameOver(reply.game_over->0, objs),
            _ => GameStateView::GameOver(
                reply.game_over->0,
                ObjectsView { player: None, target: None, obstacles: Seq::empty() },
            ),
        }),
{
}

/// The position that a read of `{x, y}` gives.
pub fn coords_from_read(read: &Option<CoordsRead>) -> (pos: Option<(u16, u16)>)
    ensures
        pos == spec_coords(*read),
{
    match read {
        Some(CoordsRead { x: Some(x), y: Some(y) }) => Some((*x, *y)),
        _ => None,
    }
}

/// The obstacles that the reads of a reply's list give, in order.
pub fn obstacles_from_read(reads: &Option<Vec<Option<CoordsRead>>>) -> (list: Vec<(u16, u16)>)
    ensures
        list@ == spec_obstacles(
            match reads {
                Some(v) => Some(v@),
                None => None,
            },
        ),
{
    let mut list: Vec<(u16, u16)> = Vec::new();
    match reads {
        None => list,
        Some(entries) => {
            let mut k: usize = 0;
            while k < entries.len()
                invariant
                    k <= entries.len(),
                    list@ == spec_positions(entries@.take(k as int)),
                decreases entries.len() - k,
            {
                assert(entries@.take(k + 1).drop_last() == entries@.take(k as int));
                if let Some(pos) = coords_from_read(&entries[k]) {
                    list.push(pos);
                }
                k = k + 1;
            }
            assert(entries@.take(entries.len() as int) == entries@);
            list
        },
    }
}

/// A copy of `objs`.
fn copy_objects(objs: &GameObjects) -> (copy: GameObjects)
    ensures
        copy@ == objs@,
{
    let mut obstacles: Vec<(u16, u16)> = Vec::new();
    let mut k: usize = 0;
    while k < objs.obstacles.len()
        invariant
            k <= objs.obstacles.len(),
            obstacles@ == objs.obstacles@.take(k as int),
        decreases objs.obstacles.len() - k,
    {
        obstacles.push(objs.obstacles[k]);
        k = k + 1;
    }
    assert(objs.obstacles@.take(objs.obstacles.len() as int) == objs.obstacles@);
    GameObjects { player: objs.player, target: objs.target, obstacles }
}

/// The state that follows `prev` once the script has answered `reply`, with the player at
/// `player`.
pub fn state_after_update(prev: &GameState, player: Option<(u16, u16)>, reply: UpdateReply) -> (next: GameState)
    ensures
        next@ == spec_state_after_update(prev@, player, reply@),
{
    match reply.game_over {
        Some(reason) => {
            let kept = match prev {
                GameState::Running(objs) => copy_objects(objs),
                _ => GameObjects { player: None, target: None, obstacles: Vec::new() },
            };
            GameState::GameOver(reason, kept)
        },
        None => {
            let target = coords_from_read(&reply.target);
            let obstacles = obstacles_from_read(&reply.obstacles);
            GameState::Running(GameObjects { player, target, obstacles })
        },
    }
}

} // verus!
