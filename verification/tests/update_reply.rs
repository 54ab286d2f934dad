use raa_tui::game_state::{GameObjects, GameState};
use raa_tui::update_reply::{
    coords_from_read, obstacles_from_read, state_after_update, CoordsRead, UpdateReply,
};

fn full(x: u16, y: u16) -> Option<CoordsRead> {
    Some(CoordsRead { x: Some(x), y: Some(y) })
}

#[test]
fn coords_need_both_coordinates() {
    assert_eq!(coords_from_read(&full(3, 4)), Some((3, 4)));
    assert_eq!(coords_from_read(&Some(CoordsRead { x: Some(3), y: None })), None);
    assert_eq!(coords_from_read(&Some(CoordsRead { x: None, y: Some(4) })), None);
    assert_eq!(coords_from_read(&None), None);
}

#[test]
fn obstacles_skip_broken_entries() {
    let reads = Some(vec![
        full(1, 2),
        None,
        Some(CoordsRead { x: Some(9), y: None }),
        full(3, 4),
    ]);
    assert_eq!(obstacles_from_read(&reads), vec![(1, 2), (3, 4)]);
    assert_eq!(obstacles_from_read(&None), Vec::<(u16, u16)>::new());
    assert_eq!(obstacles_from_read(&Some(Vec::new())), Vec::<(u16, u16)>::new());
}

#[test]
fn reply_without_reason_runs() {
    let reply = UpdateReply {
        game_over: None,
        target: full(7, 8),
        obstacles: Some(vec![full(1, 1), None]),
    };
    let next = state_after_update(&GameState::Undef, Some((2, 3)), reply);
    assert_eq!(
        next,
        GameState::Running(GameObjects {
            player: Some((2, 3)),
            target: Some((7, 8)),
            obstacles: vec![(1, 1)],
        })
    );
}

#[test]
fn reply_with_reason_keeps_running_objects() {
    let objs = GameObjects { player: Some((1, 1)), target: None, obstacles: vec![(2, 2)] };
    let reply = UpdateReply {
        game_over: Some(String::from("caught")),
        target: None,
        obstacles: None,
    };
    let next = state_after_update(&GameState::Running(objs.clone()), Some((5, 5)), reply);
    assert_eq!(next, GameState::GameOver(String::from("caught"), objs));
}

#[test]
fn reply_with_reason_before_start_has_no_objects() {
    let reply = UpdateReply {
        game_over: Some(String::from("at once")),
        target: full(1, 1),
        obstacles: None,
    };
    let next = state_after_update(&GameState::Undef, Some((5, 5)), reply);
    assert_eq!(
        next,
        GameState::GameOver(
            String::from("at once"),
            GameObjects { player: None, target: None, obstacles: Vec::new() }
        )
    );
}
