use rustjslich::chess_logic::GameState;

#[test]
fn test_game_state_new() {
    let state = GameState::new();
    assert_eq!(state.piece_count(), 32);
    assert!(!state.game_ended);
}

#[test]
fn test_apply_move() {
    let mut state = GameState::new();
    assert!(state.apply_move("e2e4").is_ok());
    assert_eq!(state.current_ply, 1);
}

#[test]
fn test_is_capture() {
    let mut state = GameState::new();
    state.apply_move("e2e4").unwrap();
    state.apply_move("d7d5").unwrap();
    assert!(state.is_capture("e4d5"));
}
