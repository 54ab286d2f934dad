use raa_tui::game_model::{GameError, GameModel};
use raa_tui::game_state::{GameObjects, GameState};
use raa_tui::movement::GameCommand;

#[test]
fn game_over() {
    let code = r#"
                        function update(time)
                        return {
                            GameOver = "Some reason",
                        }
                        end
                    "#;
    let mut model = GameModel::new(code).unwrap();
    let new_state = model.invoke_lua_update(-1, None).unwrap();
    match new_state {
        GameState::Undef => panic!("can't be GameState::Undef"),
        GameState::GameOver(_, _) => {},
        GameState::Running(_) => panic!("can't be GameState::Running()"),
    }
}

#[test]
fn all_in() {
    let code = r#"
                        function update(time, player)
                            if player == nil then
                                error("<player> is NIL")
                            end
                            if player[1] ~= 11 then
                                error("<player> with wrong [1]")
                            end
                            if player[2] ~= 7 then
                                error("<player> with wrong [2]")
                            end
                        return {
                            obstacles = {
                                {3,14},{4,15},
                            },
                            target = {2,6},
                        }
                        end
                    "#;
    let mut model = GameModel::new(code).unwrap();
    let new_state = model.invoke_lua_update(-1, Some((11, 7))).unwrap();
    match new_state {
        GameState::Undef => panic!("can't be GameState::Undef"),
        GameState::GameOver(_, _) => panic!("can't be GameState::GameOver()"),
        GameState::Running(objs) => {
            assert!(objs.player == Some((11, 7)));
            assert!(objs.target == Some((2, 6)));
            let len = objs.obstacles.len();
            assert!(len == 2, "invalid len() - {}", len);
            assert!(objs.obstacles[0] == (3, 14));
            assert!(objs.obstacles[1] == (4, 15));
        }
    }
}

#[test]
fn only_obstacles() {
    let code = r#"
                        function update(time)
                        return {
                            obstacles = {
                                {13,4},{14,4},{14,5},
                            },
                        }
                        end
                    "#;
    let mut model = GameModel::new(code).unwrap();
    let new_state = model.invoke_lua_update(-1, None).unwrap();
    match new_state {
        GameState::Undef => panic!("can't be GameState::Undef"),
        GameState::GameOver(_, _) => panic!("can't be GameState::GameOver()"),
        GameState::Running(objs) => {
            assert!(objs.target.is_none());
            assert!(objs.player.is_none());
            let len = objs.obstacles.len();
            assert!(len == 3, "invalid len() - {}", len);
            assert!(objs.obstacles[0] == (13, 4));
            assert!(objs.obstacles[1] == (14, 4));
            assert!(objs.obstacles[2] == (14, 5));
        }
    }
}

#[test]
fn only_obstacles_single() {
    let code = r#"
                        function update(time)
                        return {
                            obstacles = {
                                {5,6},
                            },
                        }
                        end
                    "#;
    let mut model = GameModel::new(code).unwrap();
    let new_state = model.invoke_lua_update(-1, None).unwrap();
    match new_state {
        GameState::Undef => panic!("can't be GameState::Undef"),
        GameState::GameOver(_, _) => panic!("can't be GameState::GameOver()"),
        GameState::Running(objs) => {
            assert!(objs.target.is_none());
            assert!(objs.player.is_none());
            let len = objs.obstacles.len();
            assert!(len == 1, "invalid len() - {}", len);
            assert!(objs.obstacles[0] == (5, 6));
        }
    }
}

#[test]
fn only_empty_obstacles_count() {
    let code = r#"
                        function update(time)
                        return {
                            obstacles = {
                            },
                        }
                        end
                    "#;
    let mut model = GameModel::new(code).unwrap();
    let new_state = model.invoke_lua_update(-1, None).unwrap();
    match new_state {
        GameState::Undef => panic!("can't be GameState::Undef"),
        GameState::GameOver(_, _) => panic!("can't be GameState::GameOver()"),
        GameState::Running(objs) => {
            assert!(objs.target.is_none());
            assert!(objs.player.is_none());
            let len = objs.obstacles.len();
            assert!(len == 0, "invalid len() - {}", len);
        }
    }
}

#[test]
fn only_target_position() {
    let code = r#"
                        function update(time)
                        return {
                            target = {13,14},
                        }
                        end
                    "#;
    let mut model = GameModel::new(code).unwrap();
    let new_state = model.invoke_lua_update(-1, None).unwrap();
    match new_state {
        GameState::Undef => panic!("can't be GameState::Undef"),
        GameState::GameOver(_, _) => panic!("can't be GameState::GameOver()"),
        GameState::Running(objs) => {
            assert!(objs.target == Some((13, 14)));
            assert!(objs.player.is_none());
            assert!(objs.obstacles.is_empty());
        }
    }
}

#[test]
fn new_empty_objects() {
    let code = r#"
                        function update(time)
                        return {}
                        end
                    "#;
    let mut model = GameModel::new(code).unwrap();
    let new_state = model.invoke_lua_update(-1, None).unwrap();
    match new_state {
        GameState::Undef => panic!("can't be GameState::Undef"),
        GameState::GameOver(_, _) => panic!("can't be GameState::GameOver()"),
        GameState::Running(objs) => {
            assert!(objs.player.is_none());
            assert!(objs.target.is_none());
            assert!(objs.obstacles.is_empty());
        }
    }
}

#[test]
fn new_player_position() {
    let code = r#"
                        new_player = {7,4}
                        function update(time)
                            return {}
                        end
                    "#;
    let mut model = GameModel::new(code).unwrap();
    assert!(*model.state() == GameState::Undef);
    model.update(-1, None).unwrap();
    let GameState::Running(objs) = model.state() else {
        panic!("game_state is not Running(_)");
    };
    let Some(player) = objs.player else {
        panic!("game_state.player is None");
    };
    assert!(player == (7, 4));
}

#[test]
fn there_is_no_new_player_error() {
    let code = r#"
                        new_player = nil
                    "#;
    let mut model = GameModel::new(code).unwrap();
    assert!(*model.state() == GameState::Undef);
    let r = model.update(-1, None);
    assert!(r.is_err());
}

#[test]
fn new_state_is_undef() {
    let code = "";
    let model = GameModel::new(code).unwrap();
    assert!(*model.state() == GameState::Undef);
}

#[test]
fn undef_with_incorrect_time_error() {
    let code = "";
    let mut model = GameModel::new(code).unwrap();
    let r = model.update(0, None);
    assert!(r.is_err());
}

#[test]
fn there_is_no_update_error() {
    let code = "";
    let mut model = GameModel::new(code).unwrap();
    let r = model.update(-1, None);
    assert!(r.is_err());
}

#[test]
fn broken_script_is_refused() {
    let r = GameModel::new("function update(");
    assert!(matches!(r, Err(GameError::Lua(_))));
}

#[test]
fn not_started_error_leaves_state() {
    let mut model = GameModel::new("").unwrap();
    let r = model.update(5, Some(GameCommand::Up));
    assert!(matches!(r, Err(GameError::NotStarted)));
    assert!(*model.state() == GameState::Undef);
}

const WALKER: &str = r#"
    new_player = {2,2}
    function update(time, player)
        if time >= 3 then
            return { GameOver = "time is up" }
        end
        return { target = {9,9}, obstacles = { {1,1}, "not a position", {4} } }
    end
"#;

#[test]
fn running_game_moves_the_player() {
    let mut model = GameModel::new(WALKER).unwrap();
    model.update(-1, None).unwrap();
    model.update(1, Some(GameCommand::Up)).unwrap();
    assert!(
        *model.state()
            == GameState::Running(GameObjects {
                player: Some((2, 1)),
                target: Some((9, 9)),
                obstacles: vec![(1, 1)],
            })
    );
    model.update(2, None).unwrap();
    let GameState::Running(objs) = model.state() else { panic!("not running") };
    assert_eq!(objs.player, Some((2, 1)));
}

#[test]
fn game_over_keeps_objects_and_stays() {
    let mut model = GameModel::new(WALKER).unwrap();
    model.update(-1, None).unwrap();
    model.update(1, Some(GameCommand::Right)).unwrap();
    model.update(3, Some(GameCommand::Down)).unwrap();
    let expected = GameState::GameOver(
        String::from("time is up"),
        GameObjects { player: Some((3, 2)), target: Some((9, 9)), obstacles: vec![(1, 1)] },
    );
    assert!(*model.state() == expected);
    model.update(4, Some(GameCommand::Left)).unwrap();
    assert!(*model.state() == expected);
}

#[test]
fn script_error_leaves_state() {
    let code = r#"
        new_player = {0,0}
        function update(time, player)
            if time == 1 then error("boom") end
            return {}
        end
    "#;
    let mut model = GameModel::new(code).unwrap();
    model.update(-1, None).unwrap();
    let before = model.state().clone();
    let r = model.update(1, Some(GameCommand::Down));
    assert!(matches!(r, Err(GameError::Lua(_))));
    assert!(*model.state() == before);
}

#[test]
fn restart_with_start_time() {
    let mut model = GameModel::new(WALKER).unwrap();
    model.update(-1, None).unwrap();
    model.update(3, None).unwrap();
    assert!(matches!(model.state(), GameState::GameOver(_, _)));
    model.update(-1, None).unwrap();
    let GameState::Running(objs) = model.state() else { panic!("not running") };
    assert_eq!(objs.player, Some((2, 2)));
}

#[test]
fn script_cannot_reach_the_system() {
    assert!(matches!(GameModel::new("os.exit(1)"), Err(GameError::Lua(_))));
    assert!(matches!(GameModel::new("io.read()"), Err(GameError::Lua(_))));
    assert!(matches!(GameModel::new("dofile()"), Err(GameError::Lua(_))));
    assert!(matches!(GameModel::new("require('os')"), Err(GameError::Lua(_))));
}

#[test]
fn runaway_memory_is_an_error() {
    let code = "local t = {} for i = 1, 100000000 do t[i] = i end";
    assert!(matches!(GameModel::new(code), Err(GameError::Lua(_))));
}

#[test]
fn tables_cannot_get_metatables() {
    let code = r#"
        function update(time)
            return setmetatable({}, { __index = function(t, k) return {1, 2} end })
        end
    "#;
    let mut model = GameModel::new(code).unwrap();
    assert!(matches!(model.invoke_lua_update(-1, None), Err(GameError::Lua(_))));
}

#[test]
fn sandbox_keeps_plain_libraries() {
    let code = r#"
        function update(time)
            local s = string.format("%d", math.max(3, 4))
            local t = {}
            table.insert(t, { tonumber(s), utf8.len("ab") })
            local co = coroutine.wrap(function() return 9 end)
            return { target = { co(), 1 }, obstacles = t }
        end
    "#;
    let mut model = GameModel::new(code).unwrap();
    let next = model.invoke_lua_update(0, None).unwrap();
    assert!(
        next == GameState::Running(GameObjects {
            player: None,
            target: Some((9, 1)),
            obstacles: vec![(4, 2)],
        })
    );
}

#[test]
fn sandbox_removes_risky_globals() {
    for code in ["print('x')", "load('return 1')", "loadfile('x')", "setmetatable({}, {})"] {
        assert!(matches!(GameModel::new(code), Err(GameError::Lua(_))));
    }
}

#[test]
fn player_is_handed_as_x_then_y() {
    let code = r#"
        function update(time, player)
            return { target = { player[2], player[1] }, obstacles = { { time, 0 } } }
        end
    "#;
    let mut model = GameModel::new(code).unwrap();
    let next = model.invoke_lua_update(5, Some((3, 8))).unwrap();
    assert!(
        next == GameState::Running(GameObjects {
            player: Some((3, 8)),
            target: Some((8, 3)),
            obstacles: vec![(5, 0)],
        })
    );
}
