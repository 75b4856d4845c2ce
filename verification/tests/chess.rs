use rustjslich::board::{parse_uci, PieceKind, UciMove};
use rustjslich::bridge::protocol::Color;
use rustjslich::chess_logic::{ChessError, GameState};

const START: &str = "rnbqkbnr/pppppppp/8/8/8/8/PPPPPPPP/RNBQKBNR w KQkq - 0 1";

#[test]
fn new_game_is_the_initial_position() {
    let g = GameState::new();
    assert_eq!(g.fen(), START);
    assert!(g.move_history.is_empty());
    assert_eq!(g.my_color, None);
    assert_eq!(g.current_ply, 0);
    assert!(!g.last_move_acked);
    assert!(g.pending_move.is_none());
}

#[test]
fn from_fen_reads_and_refuses() {
    let g = GameState::from_fen("8/8/8/8/8/8/8/K6k w - - 0 1").unwrap();
    assert_eq!(g.piece_count(), 2);
    assert_eq!(GameState::from_fen("not a fen").err(), Some(ChessError::InvalidFen));
}

#[test]
fn apply_move_refuses_text_that_is_not_a_move() {
    let mut g = GameState::new();
    assert_eq!(g.apply_move("zz"), Err(ChessError::InvalidMove));
    assert_eq!(g.apply_move("e2"), Err(ChessError::InvalidMove));
    assert_eq!(g.current_ply, 0);
    assert_eq!(g.fen(), START);
}

#[test]
fn apply_move_records_the_move() {
    let mut g = GameState::new();
    g.apply_move("g1f3").unwrap();
    assert_eq!(g.move_history, vec![UciMove { source: 6, dest: 21, promotion: None }]);
    assert_eq!(g.fen(), "rnbqkbnr/pppppppp/8/8/8/5N2/PPPPPPPP/RNBQKB1R b KQkq - 0 1");
}

#[test]
fn turn_follows_side_to_move() {
    let mut g = GameState::new();
    assert!(!g.is_my_turn());
    g.set_my_color(Color::White);
    assert!(g.is_my_turn());
    g.apply_move("e2e4").unwrap();
    assert!(!g.is_my_turn());
    g.set_my_color(Color::Black);
    assert!(g.is_my_turn());
}

#[test]
fn captures_and_piece_count() {
    let mut g = GameState::new();
    assert!(!g.is_capture("e2e4"));
    assert!(!g.is_capture("junk"));
    g.apply_move("e2e4").unwrap();
    g.apply_move("d7d5").unwrap();
    g.apply_move("e4d5").unwrap();
    assert_eq!(g.piece_count(), 31);
}

#[test]
fn would_draw_on_bare_material() {
    let g = GameState::from_fen("8/8/8/8/8/8/1q6/K6k w - - 0 1").unwrap();
    assert!(g.would_draw("a1b2"));
    assert!(!GameState::new().would_draw("e2e4"));
    assert!(!g.would_draw("junk"));
}

#[test]
fn can_play_guards_the_board() {
    let g = GameState::new();
    assert!(g.can_play("e2e4"));
    assert!(!g.can_play("e4e5"));
    assert!(g.can_play("junk"));
}

#[test]
fn reset_starts_over() {
    let mut g = GameState::new();
    g.apply_move("e2e4").unwrap();
    g.set_my_color(Color::Black);
    g.game_ended = true;
    g.reset();
    assert_eq!(g.fen(), START);
    assert_eq!(g.my_color, None);
    assert!(!g.game_ended);
    assert_eq!(g.current_ply, 0);
}

#[test]
fn uci_parsing() {
    assert_eq!(parse_uci("e2e4"), Some(UciMove { source: 12, dest: 28, promotion: None }));
    assert_eq!(parse_uci("e7e8q"), Some(UciMove { source: 52, dest: 60, promotion: Some(PieceKind::Queen) }));
    assert_eq!(parse_uci("e7e8k"), None);
    assert_eq!(parse_uci("e7e8qq"), Some(UciMove { source: 52, dest: 60, promotion: None }));
    assert_eq!(parse_uci("i2e4"), None);
    let m = UciMove { source: 49, dest: 57, promotion: Some(PieceKind::Knight) };
    assert_eq!(m.to_uci_string(), "b7b8n");
    assert_eq!(parse_uci(&m.to_uci_string()), Some(m));
}

#[test]
fn draws_only_on_insufficient_material() {
    let rook = GameState::from_fen("4k3/8/8/8/8/8/8/R3K3 w - - 0 1").unwrap();
    assert!(!rook.would_draw("a1a7"));
    let bishop = GameState::from_fen("4k3/8/8/8/8/8/8/2B1K3 w - - 0 1").unwrap();
    assert!(bishop.would_draw("c1d2"));
    let knights = GameState::from_fen("4k3/8/8/8/8/8/8/1NN1K3 w - - 0 1").unwrap();
    assert!(!knights.would_draw("b1c3"));
}

#[test]
fn texts_the_crate_cannot_read_safely_are_refused() {
    assert!(matches!(GameState::from_fen("8/8/8/8/8/8/8/8 w - - 0 1"), Err(ChessError::InvalidFen)));
    assert!(matches!(GameState::from_fen("4k3/8/8/8/8/8/8/8 w - - 0 1"), Err(ChessError::InvalidFen)));
    assert!(matches!(GameState::from_fen("K7k/8/8/8/8/8/8/8 w - - 0 1"), Err(ChessError::InvalidFen)));
    assert!(matches!(GameState::from_fen("4k3/8/8/8/8/8/8/8/4K3 w - - 0 1"), Err(ChessError::InvalidFen)));
    let g = GameState::from_fen("4k3/8/8/8/8/8/8/4K3 b - - 0 1").unwrap();
    assert!(!g.is_my_turn());
    assert_eq!(g.piece_count(), 2);
}

#[test]
fn only_legal_moves_are_played() {
    let g = GameState::new();
    assert!(!g.can_play("e8e7"));
    assert!(!g.can_play("e1e2"));
    assert!(g.can_play("g1f3"));
    let mut h = GameState::new();
    h.apply_move("e2e4").unwrap();
    assert!(h.can_play("e7e5"));
    assert!(!h.can_play("e4e5"));
}
