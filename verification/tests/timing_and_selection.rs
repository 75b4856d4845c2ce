use rustjslich::chess_logic::GameState;
use rustjslich::config::ConfigMode;
use rustjslich::engine::{EvalType, PVLine};
use rustjslich::move_selector::{MoveSelector, SelectionRolls, VarietyStats};
use rustjslich::timing::{human_delay_for, saturating_mul, HumanRolls, TimingEngine, TimingStats};

fn pv(multipv: u8, eval: i32, mv: &str) -> PVLine {
    PVLine {
        multipv,
        eval_cp: Some(eval),
        eval_type: EvalType::Centipawn,
        mate_val: None,
        pv: vec![mv.to_string()],
        first_move: mv.to_string(),
    }
}

#[test]
fn timing_engine_starts_with_presets() {
    let t = TimingEngine::new(7);
    assert_eq!(t.presets.len(), 3);
    assert_eq!(t.active_preset, ConfigMode::Normal15s);
    assert_eq!(t.get_preset().engine_ms, 20);
    assert_eq!(t.presets[0].varied.weights, [8, 40, 28, 24]);
    assert_eq!(t.presets[2].human.max_delay_ms, 1200);
    assert_eq!(t.lag_history.iter().copied().collect::<Vec<u32>>(), vec![50, 50, 50]);
    assert_eq!(t.vpn_offset, 7);
    let mut t = t;
    t.set_preset(ConfigMode::Slow30s);
    assert_eq!(t.get_preset().engine_ms, 60);
}

#[test]
fn lag_compensation() {
    let mut t = TimingEngine::new(0);
    assert_eq!(t.get_average_server_lag(), 50);
    assert_eq!(t.get_lag_compensation(), 50);
    assert_eq!(t.get_panic_lag_compensation(), 80);
    t.vpn_offset = 200;
    assert_eq!(t.get_lag_compensation(), 100);
    assert_eq!(t.get_panic_lag_compensation(), 200);
}

#[test]
fn lag_history_keeps_five() {
    let mut t = TimingEngine::new(0);
    for l in [100, 200, 300, 400] {
        t.update_lag(l);
    }
    assert_eq!(t.lag_history.iter().copied().collect::<Vec<u32>>(), vec![50, 100, 200, 300, 400]);
    assert_eq!(t.get_average_server_lag(), 210);
}

#[test]
fn stats_update_and_reset() {
    let mut t = TimingEngine::new(0);
    t.update_stats(100, 20);
    t.update_stats(50, 30);
    assert_eq!(t.stats.total_moves, 2);
    assert_eq!(t.stats.total_time_ms, 150);
    assert_eq!(t.stats.engine_time_ms, 50);
    t.reset_stats();
    assert_eq!(t.stats.total_moves, 0);
}

#[test]
fn human_delays_for_given_fractions() {
    let t = TimingEngine::new(0);
    let cfg = t.presets[1].human;
    let stats = TimingStats { total_moves: 0, total_time_ms: 0, engine_time_ms: 0 };
    let half = HumanRolls { first: 500000, second: 999999, third: 0 };
    assert_eq!(human_delay_for(&cfg, &stats, 32, true, &half), 0);
    // premove: 0 + 0.5 * 20
    assert_eq!(human_delay_for(&cfg, &stats, 10, false, &half), 10);
    // low piece count: 30 + 0.5 * 120
    assert_eq!(human_delay_for(&cfg, &stats, 20, false, &half), 90);
    // normal: 250 * (1 + 0 * 0.27)
    assert_eq!(human_delay_for(&cfg, &stats, 32, false, &half), 250);
    // quick move: 0 + 0.5 * 50
    let quick = HumanRolls { first: 500000, second: 0, third: 500000 };
    assert_eq!(human_delay_for(&cfg, &stats, 32, false, &quick), 25);
    // long think: 400 + 0.5 * 200
    let tank = HumanRolls { first: 500000, second: 255000, third: 500000 };
    assert_eq!(human_delay_for(&cfg, &stats, 32, false, &tank), 500);
    // largest spread is capped at the maximum
    let slow = t.presets[2].human;
    let top = HumanRolls { first: 999999, second: 999999, third: 0 };
    assert_eq!(human_delay_for(&slow, &stats, 32, false, &top), 685);
    // slow average: 600 ms per move over 10 moves scales 250 by 580 / 600
    let busy = TimingStats { total_moves: 10, total_time_ms: 5000, engine_time_ms: 1000 };
    assert_eq!(human_delay_for(&cfg, &busy, 32, false, &half), 242);
    // very slow average: at most halved
    let slower = TimingStats { total_moves: 10, total_time_ms: 20000, engine_time_ms: 0 };
    assert_eq!(human_delay_for(&cfg, &slower, 32, false, &half), 125);
}

#[test]
fn drawn_human_delay_stays_in_range() {
    let t = TimingEngine::new(0);
    let g = GameState::new();
    for _ in 0..50 {
        let d = t.calculate_human_delay(&g, "e2e4", false);
        assert!(d <= 800);
        assert_eq!(t.calculate_human_delay(&g, "e2e4", true), 0);
    }
}

#[test]
fn saturating_multiplication() {
    assert_eq!(saturating_mul(50, 2), 100);
    assert_eq!(saturating_mul(u32::MAX, 3), u32::MAX);
}

#[test]
fn best_move_without_variety() {
    let mut s = MoveSelector::new();
    let g = GameState::new();
    let cfg = TimingEngine::new(0).presets[1].varied;
    assert!(s.select_move(&[], &g, false, &cfg).is_none());
    let pvs = vec![pv(1, 30, "e2e4"), pv(2, 20, "d2d4")];
    let m = s.select_move(&pvs, &g, false, &cfg).unwrap();
    assert_eq!(m.uci, "e2e4");
    assert_eq!(m.pv_index, 0);
    assert_eq!(m.eval_cp, Some(30));
    assert!(!m.is_blunder);
    assert_eq!(s.variety_stats.pv1, 1);
}

#[test]
fn varied_selection_for_given_fractions() {
    let mut s = MoveSelector::new();
    let g = GameState::new();
    let cfg = TimingEngine::new(0).presets[1].varied; // weights 10 45 23 22, max loss 300
    let pvs = vec![pv(1, 50, "e2e4"), pv(2, 40, "d2d4"), pv(3, 30, "c2c4"), pv(4, -400, "g1h3")];
    // weights in tenths: 100, 440, 210; the fourth loses 450 and is not eligible
    let first = SelectionRolls { blunder: 999999, pick: 0 };
    let m = s.select_varied_move_with(&pvs, &g, &cfg, &first).unwrap();
    assert_eq!((m.uci.as_str(), m.pv_index), ("e2e4", 0));
    let second = SelectionRolls { blunder: 999999, pick: 500000 };
    let m = s.select_varied_move_with(&pvs, &g, &cfg, &second).unwrap();
    assert_eq!((m.uci.as_str(), m.pv_index), ("d2d4", 1));
    let third = SelectionRolls { blunder: 999999, pick: 999999 };
    let m = s.select_varied_move_with(&pvs, &g, &cfg, &third).unwrap();
    assert_eq!((m.uci.as_str(), m.pv_index), ("c2c4", 2));
    assert!(!m.is_blunder);
    // a blunder allowed: the fourth becomes eligible and counts as a blunder
    let blunder = SelectionRolls { blunder: 0, pick: 999999 };
    let m = s.select_varied_move_with(&pvs, &g, &cfg, &blunder).unwrap();
    assert_eq!((m.uci.as_str(), m.pv_index), ("g1h3", 3));
    assert!(m.is_blunder);
    assert_eq!(s.game_blunder_count, 1);
    assert_eq!(s.variety_stats.pv1, 1);
    assert_eq!(s.variety_stats.pv2, 1);
    assert_eq!(s.variety_stats.pv3, 1);
    assert_eq!(s.variety_stats.pv4, 1);
    assert_eq!(s.variety_stats.blunders, 1);
    s.reset();
    assert_eq!(s.game_blunder_count, 0);
    assert_eq!(s.variety_stats.blunders, 1);
}

#[test]
fn varied_selection_avoids_mates_and_draws() {
    let mut s = MoveSelector::new();
    let cfg = TimingEngine::new(0).presets[1].varied;
    let g = GameState::new();
    let mut mated = pv(1, 10, "e2e4");
    mated.mate_val = Some(-2);
    let pvs = vec![mated, pv(2, 0, "d2d4")];
    let m = s.select_varied_move_with(&pvs, &g, &cfg, &SelectionRolls { blunder: 999999, pick: 0 }).unwrap();
    assert_eq!(m.uci, "d2d4");
    assert_eq!(m.pv_index, 1);
    // every move leaves bare material: the best is played
    let bare = GameState::from_fen("8/8/8/8/8/8/1q6/K6k w - - 0 1").unwrap();
    let pvs = vec![pv(1, 0, "a1b2")];
    let m = s.select_varied_move_with(&pvs, &bare, &cfg, &SelectionRolls { blunder: 0, pick: 0 }).unwrap();
    assert_eq!(m.uci, "a1b2");
    assert_eq!(m.pv_index, 0);
}

#[test]
fn drawn_varied_selection_plays_an_engine_move() {
    let mut s = MoveSelector::default();
    let g = GameState::new();
    let cfg = TimingEngine::new(0).presets[0].varied;
    let pvs = vec![pv(1, 50, "e2e4"), pv(2, 40, "d2d4"), pv(3, 30, "c2c4")];
    for _ in 0..20 {
        let m = s.select_varied_move(&pvs, &g, &cfg).unwrap();
        assert!(["e2e4", "d2d4", "c2c4"].contains(&m.uci.as_str()));
    }
    let total: VarietyStats = s.variety_stats;
    assert_eq!(total.pv1 + total.pv2 + total.pv3 + total.pv4, 20);
}
