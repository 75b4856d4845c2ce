use rustjslich::bridge::protocol::Color;
use rustjslich::chess_logic::GameState;
use rustjslich::config::{Config, ConfigMode, Engine};
use rustjslich::lichess::events::{EndData, LichessEvent, LichessMessage, MoveRequest};
use rustjslich::lichess::websocket::{ConnectionState, ReconnectError, WebSocketHandler};
use rustjslich::lichess::LichessClient;
use rustjslich::move_selector::VarietyStats;
use rustjslich::ui::tui::{DisplayStats, TerminalUI, UICommand};

#[test]
fn move_request_fields() {
    let r = MoveRequest::new("e2e4".to_string(), 7, true, 120);
    assert_eq!(r.t, "move");
    assert_eq!(r.d.u, "e2e4");
    assert_eq!(r.d.a, 7);
    assert_eq!(r.d.b, 1);
    assert_eq!(r.d.l, 120);
    assert_eq!(MoveRequest::new(String::new(), 0, false, 0).d.b, 0);
}

#[test]
fn client_tracks_game_and_ack() {
    let mut c = LichessClient::new();
    c.update_ack(5);
    let url = c.connect_to_game("AbCd1234".to_string());
    assert_eq!(url, "wss://socket.lichess.org/play/AbCd1234/v6");
    assert_eq!(c.game_id.as_deref(), Some("AbCd1234"));
    assert_eq!(c.get_ack(), 0);
    c.update_ack(9);
    assert_eq!(c.get_ack(), 9);
    assert!(LichessClient::default().game_id.is_none());
}

#[test]
fn messages_become_events() {
    assert!(matches!(LichessEvent::from_message(LichessMessage::Ack), LichessEvent::Ack));
    assert!(matches!(LichessEvent::from_message(LichessMessage::Reload), LichessEvent::Reload));
    assert!(matches!(LichessEvent::from_message(LichessMessage::Resync), LichessEvent::Resync));
    let end = LichessMessage::EndData(EndData { status: "draw".to_string(), winner: None });
    assert!(matches!(LichessEvent::from_message(end), LichessEvent::GameEnd(d) if d.status == "draw"));
}

#[test]
fn reconnection_backs_off_then_gives_up() {
    let mut h = WebSocketHandler::new("wss://example".to_string());
    assert_eq!(h.state(), ConnectionState::Disconnected);
    assert!(!h.is_connected());
    h.start_connecting();
    assert_eq!(h.state(), ConnectionState::Connecting);
    h.connection_established();
    assert!(h.is_connected());
    let mut delays = Vec::new();
    for _ in 0..10 {
        delays.push(h.begin_reconnect().unwrap());
        assert_eq!(h.state(), ConnectionState::Reconnecting);
    }
    assert_eq!(delays[0], 1000);
    assert_eq!(delays[1], 2000);
    assert_eq!(delays[9], 512000);
    assert_eq!(h.reconnect_attempts(), 10);
    assert_eq!(h.begin_reconnect(), Err(ReconnectError::MaxAttemptsReached));
    assert_eq!(h.reconnect_attempts(), 11);
    assert_eq!(h.begin_reconnect(), Err(ReconnectError::MaxAttemptsReached));
    assert_eq!(h.reconnect_attempts(), 12);
    h.connection_established();
    assert_eq!(h.reconnect_attempts(), 0);
    assert_eq!(h.begin_reconnect(), Ok(1000));
    h.connection_lost();
    assert_eq!(h.state(), ConnectionState::Disconnected);
    assert_eq!(h.url(), "wss://example");
}

#[test]
fn display_follows_config_and_game() {
    let mut ui = TerminalUI::new();
    assert_eq!(ui.state().game_status, "Waiting for game...");
    let mut c = Config::default();
    c.auto_run = true;
    c.selected_engine = Engine::Tomitank51;
    c.config_mode = ConfigMode::Fast7_5s;
    ui.update_from_config(&c);
    assert!(ui.state().auto_mode);
    assert_eq!(ui.state().selected_engine, Engine::Tomitank51);
    let mut g = GameState::new();
    ui.update_from_game(&g);
    assert_eq!(ui.state().game_status, "Opponent's turn");
    g.set_my_color(Color::White);
    ui.update_from_game(&g);
    assert_eq!(ui.state().game_status, "Our turn");
    assert_eq!(ui.state().board_display, "FEN: rnbqkbnr/pppppppp/8/8/8/8/PPPPPPPP/RNBQKBNR w KQkq - 0 1");
    g.game_ended = true;
    ui.update_from_game(&g);
    assert_eq!(ui.state().game_status, "Game ended");
}

#[test]
fn screen_lines() {
    let mut ui = TerminalUI::new();
    ui.set_connected(true);
    ui.set_last_move("e2e4".to_string());
    ui.update_stats(DisplayStats {
        moves_played: 12,
        avg_time_ms: 340,
        engine_time_ms: 20,
        variety_stats: VarietyStats { pv1: 5, pv2: 4, pv3: 2, pv4: 1, blunders: 1 },
    });
    let lines = ui.render_lines();
    assert_eq!(lines.len(), 34);
    assert_eq!(lines[4], "Status: 🟢 Connected | Waiting for game...");
    assert_eq!(lines[7], "│ Engine:  stockfish [E to cycle]");
    assert_eq!(lines[9], "│ Auto:    OFF [A to toggle]");
    assert_eq!(lines[10], "│ Human:   ON ✓ [H to toggle]");
    assert_eq!(lines[16], "│ Last Move: e2e4");
    assert_eq!(lines[21], "│ Moves:       12");
    assert_eq!(lines[22], "│ Avg Time:    340ms");
    assert_eq!(lines[26], "│   PV1: 5 | PV2: 4 | PV3: 2 | PV4: 1");
    assert_eq!(lines[27], "│   Blunders: 1");
}

#[test]
fn hotkeys() {
    let ui = TerminalUI::new();
    assert_eq!(ui.process_key_event(Some('q'), false), UICommand::Quit);
    assert_eq!(ui.process_key_event(Some('c'), true), UICommand::Quit);
    assert_eq!(ui.process_key_event(Some('c'), false), UICommand::NoOp);
    assert_eq!(ui.process_key_event(Some('A'), false), UICommand::ToggleAuto);
    assert_eq!(ui.process_key_event(Some('m'), true), UICommand::CycleConfig);
    assert_eq!(ui.process_key_event(None, false), UICommand::NoOp);
}

#[test]
fn default_display_is_the_initial_one() {
    let ui = TerminalUI::default();
    assert_eq!(ui.state().game_status, "Waiting for game...");
    assert!(!ui.state().is_connected);
    assert!(ui.state().human_mode);
    assert_eq!(ui.state().last_move, None);
}
