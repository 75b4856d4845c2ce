use rustjslich::engine::stockfish::{
    best_move_of, collect_pv_lines, engine_is_ready, search_finished, go_command, multipv_command, parse_info_line, position_command, search_timeout_ms,
    skill_command,
};
use rustjslich::engine::{ChessEngine, EngineError, EngineManager, EvalType, PVLine, SearchOptions};

#[test]
fn info_line_with_centipawns() {
    let pv = parse_info_line("info depth 12 seldepth 16 multipv 2 score cp -35 nodes 1000 pv e7e5 g1f3 b8c6").unwrap();
    assert_eq!(pv.multipv, 2);
    assert_eq!(pv.eval_cp, Some(-35));
    assert_eq!(pv.eval_type, EvalType::Centipawn);
    assert_eq!(pv.mate_val, None);
    assert_eq!(pv.first_move, "e7e5");
    assert_eq!(pv.pv, vec!["e7e5".to_string(), "g1f3".to_string(), "b8c6".to_string()]);
}

#[test]
fn info_line_with_mate_scores() {
    let win = parse_info_line("info multipv 1 score mate 3 pv d1h5").unwrap();
    assert_eq!(win.eval_cp, Some(100003));
    assert_eq!(win.mate_val, Some(3));
    assert_eq!(win.eval_type, EvalType::Mate);
    let loss = parse_info_line("info score mate -2 pv a1a2").unwrap();
    assert_eq!(loss.eval_cp, Some(-100002));
    assert_eq!(loss.multipv, 1);
    let huge = parse_info_line("info score mate 2147483000 pv a1a2");
    assert!(huge.is_none());
}

#[test]
fn info_lines_without_moves_are_skipped() {
    assert!(parse_info_line("info depth 1 score cp 10").is_none());
    assert!(parse_info_line("info depth 1 pv").is_none());
    assert!(parse_info_line("bestmove e2e4 ponder e7e5").is_none());
    assert!(parse_info_line("information pv e2e4").is_none());
    let odd = parse_info_line("info multipv x score cp y pv e2e4").unwrap();
    assert_eq!(odd.multipv, 1);
    assert_eq!(odd.eval_cp, None);
}

#[test]
fn search_output_is_collected_by_number() {
    let lines: Vec<String> = vec![
        "info depth 1 multipv 2 score cp 10 pv d2d4".to_string(),
        "info depth 1 multipv 1 score cp 20 pv e2e4".to_string(),
        "info string NNUE enabled".to_string(),
        "info depth 2 multipv 2 score cp 15 pv c2c4".to_string(),
        "bestmove e2e4".to_string(),
    ];
    let pvs = collect_pv_lines(&lines);
    assert_eq!(pvs.len(), 2);
    assert_eq!(pvs[0].multipv, 1);
    assert_eq!(pvs[0].first_move, "e2e4");
    assert_eq!(pvs[1].multipv, 2);
    assert_eq!(pvs[1].first_move, "c2c4");
    assert_eq!(pvs[1].eval_cp, Some(15));
}

#[test]
fn engine_commands() {
    let opts = SearchOptions { depth: None, movetime_ms: Some(20), multi_pv: 4 };
    assert_eq!(go_command(&opts), "go movetime 20");
    let opts = SearchOptions { depth: Some(5), movetime_ms: Some(100), multi_pv: 4 };
    assert_eq!(go_command(&opts), "go depth 5 movetime 100");
    let opts = SearchOptions { depth: None, movetime_ms: None, multi_pv: 1 };
    assert_eq!(go_command(&opts), "go");
    assert_eq!(search_timeout_ms(&opts), 2500);
    assert_eq!(search_timeout_ms(&SearchOptions { depth: None, movetime_ms: Some(20), multi_pv: 4 }), 520);
    assert_eq!(multipv_command(4), "setoption name MultiPV value 4");
    assert_eq!(skill_command(0), "setoption name Skill Level value 0");
    assert_eq!(position_command("8/8/8/8/8/8/8/K6k w - - 0 1"), "position fen 8/8/8/8/8/8/8/K6k w - - 0 1");
}

#[test]
fn engine_manager_without_engines() {
    let mut m = EngineManager::new();
    assert!(m.get_active_engine().is_none());
    m.set_active_engine(3);
    assert!(m.get_active_engine().is_none());
    let mut d = EngineManager::default();
    assert!(d.get_active_engine().is_none());
}

#[test]
fn engine_output_markers() {
    let lines: Vec<String> = vec!["id name Stockfish".to_string(), "uciok".to_string()];
    assert!(!engine_is_ready(&lines));
    assert!(!search_finished(&lines));
    let lines: Vec<String> = vec!["info string x".to_string(), "  readyok".to_string()];
    assert!(engine_is_ready(&lines));
    let lines: Vec<String> = vec!["info depth 3".to_string(), "bestmove e2e4 ponder e7e5".to_string()];
    assert!(search_finished(&lines));
    let lines: Vec<String> = vec![" bestmove e2e4".to_string()];
    assert!(!search_finished(&lines));
    assert!(!engine_is_ready(&Vec::new()));
}

#[test]
fn best_move_is_first_move_of_first_line() {
    assert_eq!(best_move_of(&Vec::new()), None);
    let lines: Vec<String> = vec![
        "info multipv 2 score cp 10 pv d2d4 d7d5".to_string(),
        "info multipv 1 score cp 20 pv e2e4 e7e5".to_string(),
    ];
    let pvs = collect_pv_lines(&lines);
    assert_eq!(best_move_of(&pvs), Some("e2e4".to_string()));
}

struct Named(&'static str);

impl ChessEngine for Named {
    fn name(&self) -> &str {
        self.0
    }
    fn set_position(&mut self, _fen: &str) -> Result<(), EngineError> {
        Ok(())
    }
    fn get_best_move(&mut self, _options: SearchOptions) -> Result<String, EngineError> {
        Err(EngineError { message: "none".to_string() })
    }
    fn get_multi_pv(&mut self, _options: SearchOptions) -> Result<Vec<PVLine>, EngineError> {
        Ok(Vec::new())
    }
    fn set_skill_level(&mut self, _level: u8) -> Result<(), EngineError> {
        Ok(())
    }
    fn stop(&mut self) {}
    fn is_ready(&self) -> bool {
        true
    }
}

#[test]
fn engine_manager_hands_out_the_active_engine() {
    let mut m = EngineManager::new();
    m.add_engine(Box::new(Named("first")));
    m.add_engine(Box::new(Named("second")));
    assert_eq!(m.get_active_engine().unwrap().name(), "first");
    m.set_active_engine(1);
    assert_eq!(m.get_active_engine().unwrap().name(), "second");
    m.set_active_engine(5);
    assert_eq!(m.get_active_engine().unwrap().name(), "second");
}
