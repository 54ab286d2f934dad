use raa_tui::game_state::{CellState, GameObjects, GameState};

#[test]
fn undef_state() {
    let state = GameState::Undef;
    for i in 0..256 {
        for j in 0..256 {
            let cell_state = state.cell_state(i, j);
            assert!(cell_state == CellState::Empty);
        }
    }
}

#[test]
fn gameover_state() {
    let last_objects = GameObjects {
        player: None,
        target: Some((5, 6)),
        obstacles: Vec::new(),
    };
    let state = GameState::GameOver(String::from("some failure"), last_objects);
    for i in 0..256 {
        for j in 0..256 {
            let cell_state = state.cell_state(i, j);
            if i == 5 && j == 6 {
                assert!(cell_state == CellState::Target);
            } else {
                assert!(cell_state == CellState::RedEmpty);
            }
        }
    }
}

fn sample_objects() -> GameObjects {
    GameObjects {
        player: Some((1, 2)),
        target: Some((1, 2)),
        obstacles: vec![(3, 4), (5, 6), (1, 2)],
    }
}

#[test]
fn running_state_shows_objects() {
    let state = GameState::Running(sample_objects());
    assert_eq!(state.cell_state(1, 2), CellState::Player);
    assert_eq!(state.cell_state(3, 4), CellState::Obstacle);
    assert_eq!(state.cell_state(5, 6), CellState::Obstacle);
    assert_eq!(state.cell_state(0, 0), CellState::Empty);
}

#[test]
fn target_before_obstacle() {
    let state = GameState::Running(GameObjects {
        player: None,
        target: Some((3, 4)),
        obstacles: vec![(3, 4)],
    });
    assert_eq!(state.cell_state(3, 4), CellState::Target);
}

#[test]
fn game_over_paints_background_red() {
    let running = GameState::Running(sample_objects());
    let over = GameState::GameOver(String::from("lost"), sample_objects());
    for i in 0..16 {
        for j in 0..16 {
            let r = running.cell_state(i, j);
            let o = over.cell_state(i, j);
            assert_ne!(o, CellState::Empty);
            assert_ne!(r, CellState::RedEmpty);
            if r == CellState::Empty {
                assert_eq!(o, CellState::RedEmpty);
            } else {
                assert_eq!(o, r);
            }
        }
    }
}
