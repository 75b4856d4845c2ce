use rustjslich::bridge::protocol::Color;
use rustjslich::cli::Args;
use rustjslich::config::{Config, ConfigMode, Engine};
use rustjslich::engine::stockfish::parse_info_line;
use rustjslich::text::{contains, decimal_string, str_eq};

fn args(engine: &str, mode: &str) -> Args {
    Args {
        engine: engine.to_string(),
        auto: false,
        config_mode: mode.to_string(),
        config: "config.toml".to_string(),
        panic: false,
        human_mode: false,
        bridge_port: 9876,
        auto_rematch: false,
    }
}

#[test]
fn engine_names_round_trip() {
    for e in [Engine::Stockfish, Engine::Stockfish8, Engine::JsChess, Engine::Tomitank15, Engine::Tomitank51] {
        assert_eq!(Engine::from_str(e.as_str()), Some(e));
    }
    assert_eq!(Engine::Stockfish8.as_str(), "stockfish8");
    assert_eq!(Engine::Tomitank51.as_str(), "tomitank51");
}

#[test]
fn engine_from_str_ignores_case() {
    assert_eq!(Engine::from_str("StockFish"), Some(Engine::Stockfish));
    assert_eq!(Engine::from_str("JSCHESS"), Some(Engine::JsChess));
    assert_eq!(Engine::from_str("deep.exe"), None);
    assert_eq!(Engine::from_str(""), None);
    assert_eq!(Engine::from_lowercase_name("Stockfish"), None);
}

#[test]
fn config_mode_names_round_trip() {
    for m in [ConfigMode::Fast7_5s, ConfigMode::Normal15s, ConfigMode::Slow30s] {
        assert_eq!(ConfigMode::from_str(m.as_str()), Some(m));
    }
    assert_eq!(ConfigMode::Fast7_5s.as_str(), "7.5s");
    assert_eq!(ConfigMode::from_str("15S"), None);
    assert_eq!(ConfigMode::from_str("60s"), None);
}

#[test]
fn config_default_values() {
    let c = Config::default();
    assert_eq!(c.selected_engine, Engine::Stockfish);
    assert_eq!(c.config_mode, ConfigMode::Normal15s);
    assert!(!c.auto_run);
    assert!(c.show_arrows);
    assert!(!c.piece_select_mode);
    assert!(c.human_mode);
    assert!(c.varied_mode);
    assert!(!c.panic_mode);
    assert_eq!(c.vpn_ping_offset, 0);
    assert_eq!(c.bridge_port, 9876);
    assert!(!c.auto_rematch);
}

#[test]
fn merge_with_cli_takes_known_values_and_switches_on() {
    let mut c = Config::default();
    let mut a = args("TOMITANK15", "30s");
    a.auto = true;
    a.panic = true;
    a.bridge_port = 1234;
    a.auto_rematch = true;
    c.merge_with_cli(&a);
    assert_eq!(c.selected_engine, Engine::Tomitank15);
    assert_eq!(c.config_mode, ConfigMode::Slow30s);
    assert!(c.auto_run);
    assert!(c.panic_mode);
    assert!(c.human_mode);
    assert_eq!(c.bridge_port, 1234);
    assert!(c.auto_rematch);
}

#[test]
fn merge_with_cli_keeps_unknown_and_never_switches_off() {
    let mut c = Config::default();
    c.auto_run = true;
    c.selected_engine = Engine::JsChess;
    let a = args("deep.exe", "1m");
    c.merge_with_cli(&a);
    assert_eq!(c.selected_engine, Engine::JsChess);
    assert_eq!(c.config_mode, ConfigMode::Normal15s);
    assert!(c.auto_run);
    assert!(c.human_mode);
    assert_eq!(c.bridge_port, 9876);
}

#[test]
fn color_is_white() {
    assert!(Color::White.is_white());
    assert!(!Color::Black.is_white());
}

#[test]
fn decimal_strings() {
    assert_eq!(decimal_string(0), "0");
    assert_eq!(decimal_string(7), "7");
    assert_eq!(decimal_string(10), "10");
    assert_eq!(decimal_string(4294967295), "4294967295");
    assert_eq!(decimal_string(u64::MAX), u64::MAX.to_string());
}

#[test]
fn integer_parsing() {
    // numbers are read the way `str::parse` reads them
    let pv = |line: &str| parse_info_line(line).unwrap();
    assert_eq!(pv("info multipv 4 pv e2e4").multipv, 4);
    assert_eq!(pv("info multipv +4 pv e2e4").multipv, 4);
    assert_eq!(pv("info multipv 256 pv e2e4").multipv, 1);
    assert_eq!(pv("info multipv -1 pv e2e4").multipv, 1);
    assert_eq!(pv("info score cp -35 pv e2e4").eval_cp, Some(-35));
    assert_eq!(pv("info score cp +35 pv e2e4").eval_cp, Some(35));
    assert_eq!(pv("info score cp x pv e2e4").eval_cp, None);
    assert_eq!(pv("info score cp 2147483648 pv e2e4").eval_cp, None);
}

#[test]
fn text_helpers() {
    assert!(str_eq("abc", "abc"));
    assert!(!str_eq("abc", "abd"));
    assert_eq!(Engine::from_str("TomiTank15"), Some(Engine::Tomitank15));
    // any run of white space separates the words of an engine line
    let pv = parse_info_line("info \t multipv  3\n score cp 12   pv  e2e4\t e7e5 ").unwrap();
    assert_eq!(pv.multipv, 3);
    assert_eq!(pv.eval_cp, Some(12));
    assert_eq!(pv.pv, vec!["e2e4".to_string(), "e7e5".to_string()]);
}

#[test]
fn substring_search() {
    assert!(contains("  readyok", "readyok"));
    assert!(contains("abc", ""));
    assert!(contains("", ""));
    assert!(!contains("", "a"));
    assert!(!contains("ready", "readyok"));
    assert!(contains("aab", "ab"));
    assert!(!contains("abab", "ba b"));
}
