use rustjslich::board::UciMove;
use rustjslich::bridge::protocol::{BrowserMessage, Color, GameStateMessage};
use rustjslich::config::Config;
use rustjslich::engine::{EvalType, PVLine};
use rustjslich::board::is_legal_move;
use rustjslich::game_manager::{move_to_san, san_to_uci, GameManager, SendPlan};
use rustjslich::lichess::events::{ClockData, EndData, LichessEvent, MoveData};

const START: &str = "rnbqkbnr/pppppppp/8/8/8/8/PPPPPPPP/RNBQKBNR w KQkq - 0 1";

fn move_event(uci: &str, ply: u32, lag: Option<u32>) -> LichessEvent {
    LichessEvent::Move(MoveData {
        uci: uci.to_string(),
        fen: String::new(),
        ply,
        clock: Some(ClockData { lag }),
        status: None,
        winner: None,
    })
}

fn state_msg(moves: &[&str], color: Color, my_turn: bool) -> GameStateMessage {
    GameStateMessage {
        game_id: "abcd1234".to_string(),
        fen: String::new(),
        my_color: color,
        is_my_turn: my_turn,
        white_clock_ms: 60000,
        black_clock_ms: 60000,
        moves: moves.iter().map(|m| m.to_string()).collect(),
        game_ended: false,
        result: None,
    }
}

fn pv(mv: &str) -> PVLine {
    PVLine {
        multipv: 1,
        eval_cp: Some(20),
        eval_type: EvalType::Centipawn,
        mate_val: None,
        pv: vec![mv.to_string()],
        first_move: mv.to_string(),
    }
}

#[test]
fn san_of_moves() {
    assert_eq!(move_to_san(START, UciMove { source: 6, dest: 21, promotion: None }), "Nf3");
    assert_eq!(move_to_san(START, UciMove { source: 12, dest: 28, promotion: None }), "e4");
    let fen = "r3k2r/8/8/3p4/4P3/8/8/R3K2R w KQkq - 0 1";
    assert_eq!(move_to_san(fen, UciMove { source: 4, dest: 6, promotion: None }), "O-O");
    assert_eq!(move_to_san(fen, UciMove { source: 4, dest: 2, promotion: None }), "O-O-O");
    assert_eq!(move_to_san(fen, UciMove { source: 28, dest: 35, promotion: None }), "exd5");
    assert_eq!(move_to_san(fen, UciMove { source: 0, dest: 56, promotion: None }), "Rxa8");
}

#[test]
fn san_to_uci_finds_legal_moves() {
    assert_eq!(san_to_uci(START, "Nf3"), Some("g1f3".to_string()));
    assert_eq!(san_to_uci(START, "e4"), Some("e2e4".to_string()));
    assert_eq!(san_to_uci(START, "Ke2"), None);
    assert!(is_legal_move(START, UciMove { source: 12, dest: 28, promotion: None }));
    assert!(!is_legal_move(START, UciMove { source: 12, dest: 36, promotion: None }));
}

#[test]
fn san_with_check_signs_and_disambiguation() {
    let after_e4_f5 = "rnbqkbnr/ppppp1pp/8/5p2/4P3/8/PPPP1PPP/RNBQKBNR w KQkq - 0 2";
    assert_eq!(san_to_uci(after_e4_f5, "Qh5+"), Some("d1h5".to_string()));
    assert_eq!(san_to_uci(after_e4_f5, "Qh5"), Some("d1h5".to_string()));
    assert_eq!(san_to_uci(after_e4_f5, "Qh5#"), Some("d1h5".to_string()));
    assert_eq!(san_to_uci(after_e4_f5, "exf5"), Some("e4f5".to_string()));
    let knights = "4k3/8/8/8/8/8/8/1N2KN2 w - - 0 1";
    assert_eq!(san_to_uci(knights, "Nbd2"), Some("b1d2".to_string()));
    assert_eq!(san_to_uci(knights, "Nfd2"), Some("f1d2".to_string()));
    assert_eq!(san_to_uci(knights, "Nf1d2"), Some("f1d2".to_string()));
    assert_eq!(san_to_uci(knights, "Ncd2"), None);
    let rooks = "4k3/R7/8/8/8/8/8/R3K3 w - - 0 1";
    assert_eq!(san_to_uci(rooks, "R1a4"), Some("a1a4".to_string()));
    assert_eq!(san_to_uci(rooks, "R7a4+"), Some("a7a4".to_string()));
    assert_eq!(san_to_uci(START, "e4+"), Some("e2e4".to_string()));
    assert_eq!(san_to_uci(START, "ee4"), None);
}

#[test]
fn browser_moves_in_san_rebuild_the_game() {
    let mut g = GameManager::new(Config::default());
    let start = g.handle_game_state(state_msg(&["e4", "e5", "Nf3", "Nc6"], Color::White, true));
    assert!(!start);
    assert_eq!(g.state.current_ply, 4);
    assert_eq!(g.state.fen(), "r1bqkbnr/pppp1ppp/2n5/4p3/4P3/5N2/PPPP1PPP/RNBQKB1R w KQkq - 0 1");
    assert_eq!(g.state.my_color, Some(Color::White));
    assert!(g.state.is_my_turn());
}

#[test]
fn browser_moves_in_uci_and_garbage() {
    let mut g = GameManager::new(Config::default());
    g.handle_game_state(state_msg(&["e2e4", "??", "e7e5"], Color::Black, false));
    assert_eq!(g.state.current_ply, 2);
    // the same number of moves: nothing is replayed
    g.handle_game_state(state_msg(&["d2d4", "d7d5"], Color::Black, false));
    assert_eq!(g.state.current_ply, 2);
    assert_eq!(g.state.fen(), "rnbqkbnr/pppp1ppp/8/4p3/4P3/8/PPPP1PPP/RNBQKBNR w KQkq - 0 1");
}

#[test]
fn game_state_starts_turn_with_auto_run() {
    let mut c = Config::default();
    c.auto_run = true;
    let mut g = GameManager::new(c);
    assert!(g.handle_game_state(state_msg(&[], Color::White, true)));
    let mut ended = state_msg(&[], Color::White, true);
    ended.game_ended = true;
    assert!(!g.handle_game_state(ended));
    assert!(g.state.game_ended);
}

#[test]
fn socket_events() {
    let mut c = Config::default();
    c.auto_run = true;
    let mut g = GameManager::new(c);
    g.state.set_my_color(Color::Black);
    // the opponent's move is played, its lag recorded
    assert!(g.handle_event(move_event("e2e4", 1, Some(3))));
    assert_eq!(g.lichess_client.get_ack(), 1);
    assert_eq!(g.state.current_ply, 1);
    assert_eq!(g.timing_engine.lag_history.len(), 4);
    assert_eq!(g.timing_engine.lag_history[3], 30);
    // our own move seen back: acknowledged, not played again
    g.pending_move_uci = Some("e7e5".to_string());
    g.handle_event(move_event("e7e5", 2, None));
    assert!(g.pending_move_uci.is_none());
    assert!(g.state.last_move_acked);
    assert_eq!(g.state.current_ply, 1);
    // an acknowledgement clears the pending move
    g.pending_move_uci = Some("x".to_string());
    g.state.last_move_acked = false;
    assert!(!g.handle_event(LichessEvent::Ack));
    assert!(g.pending_move_uci.is_none());
    assert!(g.state.last_move_acked);
    // a resync drops the turn in progress
    g.is_processing = true;
    g.handle_event(LichessEvent::Resync);
    assert!(!g.is_processing);
    // the end of the game starts a new one
    g.handle_event(LichessEvent::GameEnd(EndData { status: "mate".to_string(), winner: None }));
    assert_eq!(g.state.fen(), START);
    assert!(!g.state.game_ended);
}

#[test]
fn move_that_ends_the_game() {
    let mut g = GameManager::new(Config::default());
    let ev = LichessEvent::Move(MoveData {
        uci: "e2e4".to_string(),
        fen: String::new(),
        ply: 1,
        clock: None,
        status: Some("resign".to_string()),
        winner: Some("white".to_string()),
    });
    assert!(!g.handle_event(ev));
    assert!(g.state.game_ended);
    assert_eq!(g.state.current_ply, 0);
}

#[test]
fn a_turn_from_start_to_sent() {
    let mut c = Config::default();
    c.human_mode = false;
    c.varied_mode = false;
    let mut g = GameManager::new(c);
    // not our turn yet
    assert!(g.begin_turn().is_none());
    assert!(!g.is_processing);
    g.state.set_my_color(Color::White);
    let req = g.begin_turn().unwrap();
    assert_eq!(req.fen, START);
    assert_eq!(req.options.movetime_ms, Some(20));
    assert_eq!(req.options.multi_pv, 4);
    assert!(g.is_processing);
    // a second request while thinking does nothing
    assert!(g.begin_turn().is_none());
    let planned = g.choose_move(&[pv("e2e4")]).unwrap();
    assert_eq!(planned.uci, "e2e4");
    assert_eq!(planned.delay_ms, 0);
    g.set_ws_sender();
    match g.execute_move(planned.uci.clone(), 15) {
        SendPlan::Socket { request } => {
            assert_eq!(request.t, "move");
            assert_eq!(request.d.u, "e2e4");
            assert_eq!(request.d.a, 0);
            assert_eq!(request.d.b, 0);
            assert_eq!(request.d.l, 50);
        },
        _ => panic!("expected a socket move"),
    }
    assert_eq!(g.timing_engine.stats.engine_time_ms, 15);
    g.record_sent_move("e2e4");
    assert_eq!(g.pending_move_uci.as_deref(), Some("e2e4"));
    assert!(!g.is_processing);
    assert_eq!(g.state.current_ply, 1);
    assert!(!g.state.last_move_acked);
}

#[test]
fn moves_go_to_the_bridge_first() {
    let mut g = GameManager::new(Config::default());
    g.set_bridge_handle();
    g.set_ws_sender();
    match g.execute_move("e2e4".to_string(), 0) {
        SendPlan::Bridge { uci } => assert_eq!(uci, "e2e4"),
        _ => panic!("expected a bridge move"),
    }
    let mut h = GameManager::new(Config::default());
    h.is_processing = true;
    assert!(matches!(h.execute_move("e2e4".to_string(), 0), SendPlan::NoChannel));
    assert!(!h.is_processing);
}

#[test]
fn no_variations_gives_up_the_turn() {
    let mut g = GameManager::new(Config::default());
    g.is_processing = true;
    assert!(g.choose_move(&[]).is_none());
    assert!(!g.is_processing);
    g.is_processing = true;
    g.abort_turn();
    assert!(!g.is_processing);
}

#[test]
fn bridge_messages() {
    let mut c = Config::default();
    c.auto_rematch = true;
    let mut g = GameManager::new(c);
    let out = g.handle_bridge_message(BrowserMessage::RematchAvailable { game_id: "x".to_string() });
    assert!(!out.accept_rematch);
    g.set_bridge_handle();
    let out = g.handle_bridge_message(BrowserMessage::RematchAvailable { game_id: "x".to_string() });
    assert!(out.accept_rematch);
    g.state.apply_move("e2e4").unwrap();
    g.handle_bridge_message(BrowserMessage::NewGame { game_id: "y".to_string() });
    assert_eq!(g.state.current_ply, 0);
    g.state.apply_move("e2e4").unwrap();
    g.move_selector.game_blunder_count = 3;
    g.handle_bridge_message(BrowserMessage::RematchAccepted { game_id: "y".to_string() });
    assert_eq!(g.state.current_ply, 0);
    assert_eq!(g.move_selector.game_blunder_count, 0);
}
