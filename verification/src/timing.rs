//! Human-like move timing and network lag compensation.
//!
//! Probabilities and random fractions are counted in millionths (`PPM`); a delay
//! is computed exactly over the rationals and rounded to the nearest
//! millisecond, halves rounding up.
use vstd::prelude::*;
use std::collections::VecDeque;
use crate::chess_logic::{count_occupied, GameState};
use crate::config::ConfigMode;
use crate::rng::{random_fraction, PPM};

verus! {

/// The timing, move-selection and engine settings of one preset.
#[derive(Clone, Copy)]
pub struct TimingPreset {
    pub engine_ms: u32,
    pub varied: VariedConfig,
    pub human: HumanConfig,
}

/// How long to wait before playing a move.
#[derive(Clone, Copy)]
pub struct HumanConfig {
    pub base_delay_ms: u32,
    pub max_delay_ms: u32,
    pub premove_delay_ms: u32,
    pub premove_max_ms: u32,
    pub low_piece_delay_ms: u32,
    pub low_piece_max_ms: u32,
    pub premove_piece_threshold: u8,
    pub low_piece_threshold: u8,
    /// Chance of an instant move, in millionths.
    pub quick_move_chance_ppm: u32,
    pub quick_move_ms: u32,
    /// Chance of a long think, in millionths.
    pub tank_chance_ppm: u32,
    pub tank_min_ms: u32,
    pub tank_max_ms: u32,
    /// Relative spread of the normal delay, in millionths.
    pub random_variance_ppm: u32,
}

/// How far from the best move the move selection may stray.
#[derive(Clone, Copy)]
pub struct VariedConfig {
    pub max_cp_loss: i32,
    pub weights: [u8; 4],
    pub max_blunders_per_game: u8,
    pub blunder_threshold: i32,
    /// Chance of allowing a blunder on a move, in millionths.
    pub blunder_chance_ppm: u32,
}

/// Totals over the moves played.
#[derive(Clone, Copy)]
pub struct TimingStats {
    pub total_moves: u32,
    pub total_time_ms: u32,
    pub engine_time_ms: u32,
}

impl Default for TimingStats {
    fn default() -> (s: Self)
        ensures
            s.total_moves == 0,
            s.total_time_ms == 0,
            s.engine_time_ms == 0,
    {
        TimingStats { total_moves: 0, total_time_ms: 0, engine_time_ms: 0 }
    }
}

/// The timing engine: the presets, the active one, totals and recent lags.
pub struct TimingEngine {
    /// The presets, in the order 7.5s, 15s, 30s.
    pub presets: Vec<TimingPreset>,
    pub active_preset: ConfigMode,
    pub stats: TimingStats,
    pub lag_history: VecDeque<u32>,
    pub vpn_offset: u32,
}

/// Where each preset stands in `presets`.
pub open spec fn mode_index(m: ConfigMode) -> int {
    match m {
        ConfigMode::Fast7_5s => 0,
        ConfigMode::Normal15s => 1,
        ConfigMode::Slow30s => 2,
    }
}

/// The 7.5s preset.
pub open spec fn fast_preset() -> TimingPreset {
    TimingPreset {
        engine_ms: 12,
        varied: VariedConfig {
            max_cp_loss: 900,
            weights: [8, 40, 28, 24],
            max_blunders_per_game: 50,
            blunder_threshold: 100,
            blunder_chance_ppm: 450000,
        },
        human: HumanConfig {
            base_delay_ms: 180,
            max_delay_ms: 600,
            premove_delay_ms: 0,
            premove_max_ms: 10,
            low_piece_delay_ms: 25,
            low_piece_max_ms: 120,
            premove_piece_threshold: 12,
            low_piece_threshold: 22,
            quick_move_chance_ppm: 350000,
            quick_move_ms: 0,
            tank_chance_ppm: 8000,
            tank_min_ms: 250,
            tank_max_ms: 500,
            random_variance_ppm: 250000,
        },
    }
}

/// The 15s preset.
pub open spec fn normal_preset() -> TimingPreset {
    TimingPreset {
        engine_ms: 20,
        varied: VariedConfig {
            max_cp_loss: 300,
            weights: [10, 45, 23, 22],
            max_blunders_per_game: 10,
            blunder_threshold: 100,
            blunder_chance_ppm: 160000,
        },
        human: HumanConfig {
            base_delay_ms: 250,
            max_delay_ms: 800,
            premove_delay_ms: 0,
            premove_max_ms: 20,
            low_piece_delay_ms: 30,
            low_piece_max_ms: 150,
            premove_piece_threshold: 10,
            low_piece_threshold: 20,
            quick_move_chance_ppm: 250000,
            quick_move_ms: 0,
            tank_chance_ppm: 10000,
            tank_min_ms: 400,
            tank_max_ms: 600,
            random_variance_ppm: 270000,
        },
    }
}

/// The 30s preset.
pub open spec fn slow_preset() -> TimingPreset {
    TimingPreset {
        engine_ms: 60,
        varied: VariedConfig {
            max_cp_loss: 200,
            weights: [30, 55, 10, 5],
            max_blunders_per_game: 5,
            blunder_threshold: 100,
            blunder_chance_ppm: 80000,
        },
        human: HumanConfig {
            base_delay_ms: 500,
            max_delay_ms: 1200,
            premove_delay_ms: 50,
            premove_max_ms: 150,
            low_piece_delay_ms: 100,
            low_piece_max_ms: 500,
            premove_piece_threshold: 8,
            low_piece_threshold: 16,
            quick_move_chance_ppm: 200000,
            quick_move_ms: 60,
            tank_chance_ppm: 50000,
            tank_min_ms: 1000,
            tank_max_ms: 2000,
            random_variance_ppm: 370000,
        },
    }
}

/// The preset of each mode.
pub open spec fn preset_of(m: ConfigMode) -> TimingPreset {
    match m {
        ConfigMode::Fast7_5s => fast_preset(),
        ConfigMode::Normal15s => normal_preset(),
        ConfigMode::Slow30s => slow_preset(),
    }
}

/// One million, as an integer.
pub open spec fn unit() -> int {
    1000000
}

/// `num / den` rounded to the nearest integer, halves up.
pub open spec fn round_div(num: int, den: int) -> int {
    (2 * num + den) / (2 * den)
}

/// `lo + (r / 1e6) * (hi - lo)`, rounded.
pub open spec fn span_delay(lo: int, hi: int, r: int) -> int {
    round_div(lo * unit() + r * (hi - lo), unit())
}

/// The random fractions one delay draws, in millionths: the first sets the delay
/// within its range (or its spread), the second chooses a quick move or a long
/// think, the third places that one within its range.
pub struct HumanRolls {
    pub first: u32,
    pub second: u32,
    pub third: u32,
}

/// The normal delay before the average adjustment, in units of 1e-12 ms.
pub open spec fn normal_scaled(cfg: HumanConfig, rolls: HumanRolls) -> int {
    let uu = unit() * unit();
    let spread = cfg.base_delay_ms * (uu + (2 * rolls.first - unit()) * cfg.random_variance_ppm);
    let v0 = if spread < 0 { 0 } else { spread };
    let v = if rolls.second < cfg.quick_move_chance_ppm {
        (cfg.quick_move_ms * unit() + rolls.third * 50) * unit()
    } else if rolls.second < cfg.quick_move_chance_ppm + cfg.tank_chance_ppm {
        (cfg.tank_min_ms * unit() + rolls.third * (cfg.tank_max_ms - cfg.tank_min_ms)) * unit()
    } else {
        v0
    };
    if v > cfg.max_delay_ms * uu {
        cfg.max_delay_ms * uu
    } else {
        v
    }
}

/// Which delay range a position falls in.
pub open spec fn is_premove(cfg: HumanConfig, piece_count: int) -> bool {
    piece_count <= cfg.premove_piece_threshold
}

/// Fewer pieces than the normal range, more than the premove one.
pub open spec fn is_low_piece(cfg: HumanConfig, piece_count: int) -> bool {
    !is_premove(cfg, piece_count) && piece_count <= cfg.low_piece_threshold
}

/// The delay before a move, in milliseconds: none for a capture; within the
/// premove or low-piece range when few pieces are left; otherwise the base delay
/// spread by the variance, replaced by a quick move or a long think when the
/// second fraction falls below their chances, capped at the maximum, and scaled
/// down (by `580 / average`, at most halved) once more than five moves averaged
/// over 580 ms.
pub open spec fn human_delay(
    cfg: HumanConfig,
    stats: TimingStats,
    piece_count: int,
    is_capture: bool,
    rolls: HumanRolls,
) -> int {
    if is_capture {
        0
    } else if is_premove(cfg, piece_count) {
        span_delay(cfg.premove_delay_ms as int, cfg.premove_max_ms as int, rolls.first as int)
    } else if is_low_piece(cfg, piece_count) {
        span_delay(cfg.low_piece_delay_ms as int, cfg.low_piece_max_ms as int, rolls.first as int)
    } else {
        let v = normal_scaled(cfg, rolls);
        let uu = unit() * unit();
        let n = stats.total_moves as int;
        let s = stats.total_time_ms + stats.engine_time_ms;
        if n > 5 && s > 580 * n {
            if 1160 * n >= s {
                round_div(v * 580 * n, s * uu)
            } else {
                round_div(v, 2 * uu)
            }
        } else {
            round_div(v, uu)
        }
    }
}

/// Can the delay be computed without an arithmetic failure? A range whose maximum
/// lies below its minimum, or totals whose sum overflows, make it fail.
pub open spec fn human_delay_defined(
    cfg: HumanConfig,
    stats: TimingStats,
    piece_count: int,
    is_capture: bool,
    rolls: HumanRolls,
) -> bool {
    is_capture || if is_premove(cfg, piece_count) {
        cfg.premove_max_ms >= cfg.premove_delay_ms
    } else if is_low_piece(cfg, piece_count) {
        cfg.low_piece_max_ms >= cfg.low_piece_delay_ms
    } else {
        &&& (rolls.second >= cfg.quick_move_chance_ppm && rolls.second < cfg.quick_move_chance_ppm
            + cfg.tank_chance_ppm ==> cfg.tank_max_ms >= cfg.tank_min_ms)
        &&& (stats.total_moves > 5 ==> stats.total_time_ms + stats.engine_time_ms <= u32::MAX)
    }
}

/// Can the delay be computed without an arithmetic failure, whatever the draws?
pub open spec fn human_config_usable(cfg: HumanConfig, stats: TimingStats, piece_count: int) -> bool {
    forall|rolls: HumanRolls| #[trigger] human_delay_defined(cfg, stats, piece_count, false, rolls)
}

/// Are the fractions all below one?
pub open spec fn rolls_in_range(rolls: HumanRolls) -> bool {
    rolls.first < PPM && rolls.second < PPM && rolls.third < PPM
}

proof fn lemma_round_div_le(num: int, den: int, m: int)
    requires
        0 <= num <= m * den,
        den > 0,
        m >= 0,
    ensures
        0 <= round_div(num, den) <= m,
{
    assert(2 * num + den <= (2 * m + 1) * den) by (nonlinear_arith)
        requires
            num <= m * den,
    ;
    assert((2 * num + den) / (2 * den) <= m) by (nonlinear_arith)
        requires
            2 * num + den <= (2 * m + 1) * den,
            den > 0,
            m >= 0,
    ;
    assert((2 * num + den) / (2 * den) >= 0) by (nonlinear_arith)
        requires
            num >= 0,
            den > 0,
    ;
}

proof fn lemma_round_div_ge(num: int, den: int, m: int)
    requires
        num >= m * den,
        den > 0,
        m >= 0,
    ensures
        round_div(num, den) >= m,
{
    assert((2 * num + den) / (2 * den) >= m) by (nonlinear_arith)
        requires
            num >= m * den,
            den > 0,
            m >= 0,
    ;
}

/// `lo + (r / 1e6) * (hi - lo)`, rounded, for `r` below one million.
fn span_delay_exec(lo: u32, hi: u32, r: u32) -> (d: u32)
    requires
        lo <= hi,
        r < PPM,
    ensures
        d == span_delay(lo as int, hi as int, r as int),
        lo <= d <= hi,
{
    let u: u128 = 1000000;
    let span: u128 = (hi - lo) as u128;
    proof {
        assert((r as int) * (span as int) <= 1000000 * (span as int)) by (nonlinear_arith)
            requires
                r < 1000000,
                span >= 0,
        ;
        assert((lo as int) * 1000000 <= 1000000 * 4294967295) by (nonlinear_arith)
            requires
                lo <= 4294967295,
        ;
        assert((span as int) * 1000000 <= 1000000 * 4294967295) by (nonlinear_arith)
            requires
                span <= 4294967295,
        ;
    }
    let num: u128 = (lo as u128) * u + (r as u128) * span;
    let d: u128 = (2 * num + u) / (2 * u);
    proof {
        assert(num as int == (lo as int) * unit() + (r as int) * ((hi - lo) as int));
        assert(num <= (hi as int) * 1000000) by (nonlinear_arith)
            requires
                num == (lo as int) * 1000000 + (r as int) * (span as int),
                (r as int) * (span as int) <= 1000000 * (span as int),
                span == hi - lo,
        ;
        lemma_round_div_le(num as int, 1000000, hi as int);
        assert(num >= (lo as int) * 1000000) by (nonlinear_arith)
            requires
                num == (lo as int) * 1000000 + (r as int) * (span as int),
                r >= 0,
                span >= 0,
        ;
        lemma_round_div_ge(num as int, 1000000, lo as int);
    }
    d as u32
}

/// The delay before a move, for given random fractions.
pub fn human_delay_for(
    cfg: &HumanConfig,
    stats: &TimingStats,
    piece_count: u8,
    is_capture: bool,
    rolls: &HumanRolls,
) -> (d: u32)
    requires
        rolls_in_range(*rolls),
        human_delay_defined(*cfg, *stats, piece_count as int, is_capture, *rolls),
    ensures
        d == human_delay(*cfg, *stats, piece_count as int, is_capture, *rolls),
{
    if is_capture {
        return 0;
    }
    if piece_count <= cfg.premove_piece_threshold {
        return span_delay_exec(cfg.premove_delay_ms, cfg.premove_max_ms, rolls.first);
    }
    if piece_count <= cfg.low_piece_threshold {
        return span_delay_exec(cfg.low_piece_delay_ms, cfg.low_piece_max_ms, rolls.first);
    }
    let v = normal_scaled_exec(cfg, rolls);
    let uu: u128 = 1000000000000;
    let n: u128 = stats.total_moves as u128;
    let ghost cap: int = cfg.max_delay_ms as int * 1000000000000;
    if stats.total_moves > 5 {
        let s: u128 = (stats.total_time_ms + stats.engine_time_ms) as u128;
        if s > 580 * n {
            if 1160 * n >= s {
                proof {
                    assert(v * 580 * n <= cap * s) by (nonlinear_arith)
                        requires
                            v <= cap,
                            580 * n < s,
                            v >= 0,
                    ;
                    assert(cap * s <= 4294967295 * 1000000000000 * 4294967295) by (nonlinear_arith)
                        requires
                            cap == cfg.max_delay_ms as int * 1000000000000,
                            cfg.max_delay_ms <= 4294967295,
                            s <= 4294967295,
                            s >= 0,
                    ;
                    assert(s * uu <= 4294967295 * 1000000000000) by (nonlinear_arith)
                        requires
                            s <= 4294967295,
                            uu == 1000000000000,
                    ;
                    assert(v * 580 * n == v * (580 * n)) by (nonlinear_arith);
                    assert(v * 580 * n <= cfg.max_delay_ms * (s * uu)) by (nonlinear_arith)
                        requires
                            v * 580 * n <= cap * s,
                            cap == cfg.max_delay_ms as int * 1000000000000,
                            uu == 1000000000000,
                    ;
                    lemma_round_div_le(v * 580 * n, s * uu, cfg.max_delay_ms as int);
                }
                let num: u128 = v * (580 * n);
                let den: u128 = s * uu;
                let d: u128 = (2 * num + den) / (2 * den);
                return d as u32;
            } else {
                proof {
                    assert(v <= cfg.max_delay_ms * (2 * uu)) by (nonlinear_arith)
                        requires
                            v <= cap,
                            cap == cfg.max_delay_ms as int * 1000000000000,
                            uu == 1000000000000,
                    ;
                    lemma_round_div_le(v as int, 2 * uu, cfg.max_delay_ms as int);
                }
                let d: u128 = (2 * v + 2 * uu) / (4 * uu);
                return d as u32;
            }
        }
    }
    proof {
        assert(v <= cfg.max_delay_ms * uu);
        lemma_round_div_le(v as int, uu as int, cfg.max_delay_ms as int);
    }
    let d: u128 = (2 * v + uu) / (2 * uu);
    d as u32
}

/// The normal delay before the average adjustment, in units of 1e-12 ms.
fn normal_scaled_exec(cfg: &HumanConfig, rolls: &HumanRolls) -> (v: u128)
    requires
        rolls_in_range(*rolls),
        rolls.second >= cfg.quick_move_chance_ppm && rolls.second < cfg.quick_move_chance_ppm
            + cfg.tank_chance_ppm ==> cfg.tank_max_ms >= cfg.tank_min_ms,
    ensures
        v == normal_scaled(*cfg, *rolls),
        v <= cfg.max_delay_ms as int * 1000000000000,
{
    let u: u128 = 1000000;
    let uu: u128 = 1000000000000;
    let base: u128 = cfg.base_delay_ms as u128;
    let var: u128 = cfg.random_variance_ppm as u128;
    let r1: u128 = rolls.first as u128;
    let ghost spread: int = cfg.base_delay_ms * (unit() * unit() + (2 * rolls.first - unit())
        * cfg.random_variance_ppm);
    let v0: u128 = if 2 * r1 >= u {
        proof {
            assert((2 * r1 - u) * var <= 1000000 * 4294967295) by (nonlinear_arith)
                requires
                    2 * r1 - u <= 1000000,
                    var <= 4294967295,
                    2 * r1 >= u,
            ;
            assert(base * (uu + (2 * r1 - u) * var) <= 4294967295 * (1000000000000 + 1000000
                * 4294967295)) by (nonlinear_arith)
                requires
                    base <= 4294967295,
                    (2 * r1 - u) * var <= 1000000 * 4294967295,
                    uu == 1000000000000,
                    2 * r1 >= u,
            ;
        }
        base * (uu + (2 * r1 - u) * var)
    } else {
        proof {
            assert((u - 2 * r1) * var <= 1000000 * 4294967295) by (nonlinear_arith)
                requires
                    u - 2 * r1 <= 1000000,
                    var <= 4294967295,
                    2 * r1 < u,
            ;
        }
        let t: u128 = (u - 2 * r1) * var;
        if t >= uu {
            proof {
                assert(spread == base * (uu - t)) by (nonlinear_arith)
                    requires
                        spread == base * (uu + (2 * r1 - u) * var),
                        t == (u - 2 * r1) * var,
                ;
                assert(spread <= 0) by (nonlinear_arith)
                    requires
                        spread == base * (uu - t),
                        t >= uu,
                        base >= 0,
                ;
            }
            0
        } else {
            proof {
                assert(base * (uu - t) <= 4294967295 * 1000000000000) by (nonlinear_arith)
                    requires
                        base <= 4294967295,
                        uu - t <= 1000000000000,
                        t < uu,
                ;
            }
            base * (uu - t)
        }
    };
    proof {
        if 2 * r1 >= u {
            assert(spread == v0);
        } else if (u - 2 * r1) * var < uu {
            assert(spread == v0) by (nonlinear_arith)
                requires
                    spread == base * (uu + (2 * r1 - u) * var),
                    v0 == base * (uu - (u - 2 * r1) * var),
            ;
        }
        assert(v0 as int == if spread < 0 { 0 } else { spread });
    }
    let third: u128 = rolls.third as u128;
    let v: u128 = if rolls.second < cfg.quick_move_chance_ppm {
        proof {
            assert((cfg.quick_move_ms * 1000000 + third * 50) * 1000000 <= (4294967295 * 1000000
                + 1000000 * 50) * 1000000) by (nonlinear_arith)
                requires
                    cfg.quick_move_ms <= 4294967295,
                    third < 1000000,
            ;
        }
        ((cfg.quick_move_ms as u128) * u + third * 50) * u
    } else if (rolls.second as u64) < (cfg.quick_move_chance_ppm as u64) + (
    cfg.tank_chance_ppm as u64) {
        let span: u128 = (cfg.tank_max_ms - cfg.tank_min_ms) as u128;
        proof {
            assert((cfg.tank_min_ms * 1000000 + third * span) * 1000000 <= (4294967295 * 1000000
                + 1000000 * 4294967295) * 1000000) by (nonlinear_arith)
                requires
                    cfg.tank_min_ms <= 4294967295,
                    third < 1000000,
                    span <= 4294967295,
            ;
        }
        ((cfg.tank_min_ms as u128) * u + third * span) * u
    } else {
        v0
    };
    let cap: u128 = (cfg.max_delay_ms as u128) * uu;
    if v > cap {
        cap
    } else {
        v
    }
}

impl TimingEngine {
    /// The engine with the three presets, the 15s one active, no moves counted,
    /// a lag history of three 50 ms entries and the given VPN offset.
    pub fn new(vpn_offset: u32) -> (t: TimingEngine)
        ensures
            t.presets@ == seq![fast_preset(), normal_preset(), slow_preset()],
            t.active_preset == ConfigMode::Normal15s,
            t.stats == (TimingStats { total_moves: 0, total_time_ms: 0, engine_time_ms: 0 }),
            t.lag_history@ == seq![50u32, 50u32, 50u32],
            t.vpn_offset == vpn_offset,
    {
        let mut presets: Vec<TimingPreset> = Vec::new();
        // 7.5s preset
        presets.push(
            TimingPreset {
                engine_ms: 12,
                varied: VariedConfig {
                    max_cp_loss: 900,
                    weights: [8, 40, 28, 24],
                    max_blunders_per_game: 50,
                    blunder_threshold: 100,
                    blunder_chance_ppm: 450000,
                },
                human: HumanConfig {
                    base_delay_ms: 180,
                    max_delay_ms: 600,
                    premove_delay_ms: 0,
                    premove_max_ms: 10,
                    low_piece_delay_ms: 25,
                    low_piece_max_ms: 120,
                    premove_piece_threshold: 12,
                    low_piece_threshold: 22,
                    quick_move_chance_ppm: 350000,
                    quick_move_ms: 0,
                    tank_chance_ppm: 8000,
                    tank_min_ms: 250,
                    tank_max_ms: 500,
                    random_variance_ppm: 250000,
                },
            },
        );
        // 15s preset
        presets.push(
            TimingPreset {
                engine_ms: 20,
                varied: VariedConfig {
                    max_cp_loss: 300,
                    weights: [10, 45, 23, 22],
                    max_blunders_per_game: 10,
                    blunder_threshold: 100,
                    blunder_chance_ppm: 160000,
                },
                human: HumanConfig {
                    base_delay_ms: 250,
                    max_delay_ms: 800,
                    premove_delay_ms: 0,
                    premove_max_ms: 20,
                    low_piece_delay_ms: 30,
                    low_piece_max_ms: 150,
                    premove_piece_threshold: 10,
                    low_piece_threshold: 20,
                    quick_move_chance_ppm: 250000,
                    quick_move_ms: 0,
                    tank_chance_ppm: 10000,
                    tank_min_ms: 400,
                    tank_max_ms: 600,
                    random_variance_ppm: 270000,
                },
            },
        );
        // 30s preset
        presets.push(
            TimingPreset {
                engine_ms: 60,
                varied: VariedConfig {
                    max_cp_loss: 200,
                    weights: [30, 55, 10, 5],
                    max_blunders_per_game: 5,
                    blunder_threshold: 100,
                    blunder_chance_ppm: 80000,
                },
                human: HumanConfig {
                    base_delay_ms: 500,
                    max_delay_ms: 1200,
                    premove_delay_ms: 50,
                    premove_max_ms: 150,
                    low_piece_delay_ms: 100,
                    low_piece_max_ms: 500,
                    premove_piece_threshold: 8,
                    low_piece_threshold: 16,
                    quick_move_chance_ppm: 200000,
                    quick_move_ms: 60,
                    tank_chance_ppm: 50000,
                    tank_min_ms: 1000,
                    tank_max_ms: 2000,
                    random_variance_ppm: 370000,
                },
            },
        );
        let mut lag_history: VecDeque<u32> = VecDeque::new();
        lag_history.push_back(50);
        lag_history.push_back(50);
        lag_history.push_back(50);
        assert(presets@ =~= seq![fast_preset(), normal_preset(), slow_preset()]);
        assert(lag_history@ =~= seq![50u32, 50u32, 50u32]);
        TimingEngine {
            presets,
            active_preset: ConfigMode::Normal15s,
            stats: TimingStats { total_moves: 0, total_time_ms: 0, engine_time_ms: 0 },
            lag_history,
            vpn_offset,
        }
    }

    /// Does every preset stand at its place?
    pub open spec fn has_presets(&self) -> bool {
        self.presets@.len() == 3
    }

    /// The active preset.
    pub open spec fn active(&self) -> TimingPreset {
        self.presets@[mode_index(self.active_preset)]
    }

    /// Makes `mode` the active preset.
    pub fn set_preset(&mut self, mode: ConfigMode)
        ensures
            final(self).active_preset == mode,
            final(self).presets@ == old(self).presets@,
            final(self).stats == old(self).stats,
            final(self).lag_history@ == old(self).lag_history@,
            final(self).vpn_offset == old(self).vpn_offset,
    {
        self.active_preset = mode;
    }

    /// The active preset.
    pub fn get_preset(&self) -> (p: &TimingPreset)
        requires
            self.has_presets(),
        ensures
            *p == self.active(),
    {
        let i: usize = match self.active_preset {
            ConfigMode::Fast7_5s => 0,
            ConfigMode::Normal15s => 1,
            ConfigMode::Slow30s => 2,
        };
        &self.presets[i]
    }

    /// The delay before playing the move written `_uci` on `game`, for given random
    /// fractions.
    pub fn calculate_human_delay_with(
        &self,
        game: &GameState,
        _uci: &str,
        is_capture: bool,
        rolls: &HumanRolls,
    ) -> (d: u32)
        requires
            self.has_presets(),
            rolls_in_range(*rolls),
            human_delay_defined(
                self.active().human,
                self.stats,
                count_occupied(game.board@, 64),
                is_capture,
                *rolls,
            ),
        ensures
            d == human_delay(
                self.active().human,
                self.stats,
                count_occupied(game.board@, 64),
                is_capture,
                *rolls,
            ),
    {
        let cfg = &self.get_preset().human;
        if is_capture {
            return 0;
        }
        let piece_count = game.piece_count();
        human_delay_for(cfg, &self.stats, piece_count, is_capture, rolls)
    }

    /// The delay before playing the move written `uci` on `game`, drawing the
    /// random fractions it needs.
    pub fn calculate_human_delay(&self, game: &GameState, uci: &str, is_capture: bool) -> (d: u32)
        requires
            self.has_presets(),
            !is_capture ==> human_config_usable(self.active().human, self.stats, count_occupied(game.board@, 64)),
        ensures
            is_capture ==> d == 0,
            exists|rolls: HumanRolls|
                rolls_in_range(rolls) && d == human_delay(
                    self.active().human,
                    self.stats,
                    count_occupied(game.board@, 64),
                    is_capture,
                    rolls,
                ),
    {
        if is_capture {
            let rolls = HumanRolls { first: 0, second: 0, third: 0 };
            let d = self.calculate_human_delay_with(game, uci, is_capture, &rolls);
            assert(rolls_in_range(rolls));
            return d;
        }
        let cfg = &self.get_preset().human;
        let piece_count = game.piece_count();
        let first = random_fraction();
        let mut second: u32 = 0;
        let mut third: u32 = 0;
        if piece_count > cfg.premove_piece_threshold && piece_count > cfg.low_piece_threshold {
            second = random_fraction();
            if (second as u64) < (cfg.quick_move_chance_ppm as u64) + (cfg.tank_chance_ppm as u64) {
                third = random_fraction();
            }
        }
        let rolls = HumanRolls { first, second, third };
        assert(human_delay_defined(
            self.active().human,
            self.stats,
            count_occupied(game.board@, 64),
            false,
            rolls,
        ));
        let d = self.calculate_human_delay_with(game, uci, is_capture, &rolls);
        assert(rolls_in_range(rolls));
        d
    }

    /// The mean of the recent lags.
    pub fn get_average_server_lag(&self) -> (avg: u32)
        requires
            0 < self.lag_history@.len() <= u32::MAX,
            lag_sum(self.lag_history@) <= u32::MAX,
        ensures
            avg == lag_sum(self.lag_history@) / (self.lag_history@.len() as int),
    {
        let mut sum: u32 = 0;
        let mut i: usize = 0;
        while i < self.lag_history.len()
            invariant
                i <= self.lag_history@.len(),
                sum == lag_sum(self.lag_history@.subrange(0, i as int)),
                lag_sum(self.lag_history@) <= u32::MAX,
            decreases self.lag_history@.len() - i,
        {
            proof {
                let s = self.lag_history@;
                assert(s.subrange(0, i + 1).drop_last() =~= s.subrange(0, i as int));
                lemma_lag_sum_prefix(s, i + 1);
                lemma_lag_sum_monotone(s, i + 1);
            }
            sum = sum + self.lag_history[i];
            i = i + 1;
        }
        assert(self.lag_history@.subrange(0, i as int) =~= self.lag_history@);
        sum / (self.lag_history.len() as u32)
    }

    /// The lag to claim for a move: the mean recent lag plus the VPN offset, at
    /// most twice the mean (and at least 100 ms of room).
    pub fn get_lag_compensation(&self) -> (c: u32)
        requires
            0 < self.lag_history@.len() <= u32::MAX,
            lag_sum(self.lag_history@) <= u32::MAX,
            lag_sum(self.lag_history@) / (self.lag_history@.len() as int) + self.vpn_offset <= u32::MAX,
        ensures
            c == lag_claim(average_lag(self.lag_history@), self.vpn_offset as int),
    {
        let avg = self.get_average_server_lag();
        let total = avg + self.vpn_offset;
        let doubled = saturating_mul(avg, 2);
        let max_reasonable = if doubled > 100 { doubled } else { 100 };
        if total < max_reasonable {
            total
        } else {
            max_reasonable
        }
    }

    /// The lag to claim in panic mode: 30 ms more, at most three times the mean
    /// (and at least 200 ms of room).
    pub fn get_panic_lag_compensation(&self) -> (c: u32)
        requires
            0 < self.lag_history@.len() <= u32::MAX,
            lag_sum(self.lag_history@) <= u32::MAX,
            lag_sum(self.lag_history@) / (self.lag_history@.len() as int) + self.vpn_offset + 30
                <= u32::MAX,
        ensures
            c == panic_lag_claim(average_lag(self.lag_history@), self.vpn_offset as int),
    {
        let avg = self.get_average_server_lag();
        let total = avg + self.vpn_offset + 30;
        let tripled = saturating_mul(avg, 3);
        let max_reasonable = if tripled > 200 { tripled } else { 200 };
        if total < max_reasonable {
            total
        } else {
            max_reasonable
        }
    }

    /// Records a lag, keeping the five most recent.
    pub fn update_lag(&mut self, lag_ms: u32)
        ensures
            final(self).lag_history@ == lag_window(old(self).lag_history@, lag_ms),
            final(self).presets@ == old(self).presets@,
            final(self).active_preset == old(self).active_preset,
            final(self).stats == old(self).stats,
            final(self).vpn_offset == old(self).vpn_offset,
    {
        self.lag_history.push_back(lag_ms);
        if self.lag_history.len() > 5 {
            self.lag_history.pop_front();
        }
    }

    /// Adds one move, its delay and its engine time to the totals.
    pub fn update_stats(&mut self, delay_ms: u32, engine_ms: u32)
        requires
            old(self).stats.total_moves < u32::MAX,
            old(self).stats.total_time_ms + delay_ms <= u32::MAX,
            old(self).stats.engine_time_ms + engine_ms <= u32::MAX,
        ensures
            final(self).stats.total_moves == old(self).stats.total_moves + 1,
            final(self).stats.total_time_ms == old(self).stats.total_time_ms + delay_ms,
            final(self).stats.engine_time_ms == old(self).stats.engine_time_ms + engine_ms,
            final(self).presets@ == old(self).presets@,
            final(self).active_preset == old(self).active_preset,
            final(self).lag_history@ == old(self).lag_history@,
            final(self).vpn_offset == old(self).vpn_offset,
    {
        self.stats.total_moves = self.stats.total_moves + 1;
        self.stats.total_time_ms = self.stats.total_time_ms + delay_ms;
        self.stats.engine_time_ms = self.stats.engine_time_ms + engine_ms;
    }

    /// Clears the totals.
    pub fn reset_stats(&mut self)
        ensures
            final(self).stats == (TimingStats { total_moves: 0, total_time_ms: 0, engine_time_ms: 0 }),
            final(self).presets@ == old(self).presets@,
            final(self).active_preset == old(self).active_preset,
            final(self).lag_history@ == old(self).lag_history@,
            final(self).vpn_offset == old(self).vpn_offset,
    {
        self.stats = TimingStats::default();
    }
}

/// `a * b`, or `u32::MAX` when the product does not fit (`u32::saturating_mul`).
pub fn saturating_mul(a: u32, b: u32) -> (r: u32)
    ensures
        r == if a * b > u32::MAX { u32::MAX as int } else { a * b },
{
    assert((a as u64) * (b as u64) <= 4294967295 * 4294967295) by (nonlinear_arith)
        requires
            a <= 4294967295,
            b <= 4294967295,
    ;
    let p: u64 = (a as u64) * (b as u64);
    if p > u32::MAX as u64 {
        u32::MAX
    } else {
        p as u32
    }
}

/// The sum of the recorded lags.
pub open spec fn lag_sum(s: Seq<u32>) -> int
    decreases s.len(),
{
    if s.len() == 0 {
        0
    } else {
        lag_sum(s.drop_last()) + s.last()
    }
}

/// The mean of the recorded lags, rounded down.
pub open spec fn average_lag(s: Seq<u32>) -> int {
    lag_sum(s) / (s.len() as int)
}

/// `min(total, max(cap_base, floor))` with `cap_base` a saturating multiple.
pub open spec fn capped(total: int, multiple: int, floor: int) -> int {
    let m = if multiple > u32::MAX { u32::MAX as int } else { multiple };
    let cap = if m > floor { m } else { floor };
    if total < cap {
        total
    } else {
        cap
    }
}

/// The lag claimed for a move.
pub open spec fn lag_claim(avg: int, vpn: int) -> int {
    capped(avg + vpn, 2 * avg, 100)
}

/// The lag claimed for a move in panic mode.
pub open spec fn panic_lag_claim(avg: int, vpn: int) -> int {
    capped(avg + vpn + 30, 3 * avg, 200)
}

/// The recent lags after recording `lag`: appended, the oldest dropped when more
/// than five are held.
pub open spec fn lag_window(s: Seq<u32>, lag: u32) -> Seq<u32> {
    let t = s.push(lag);
    if t.len() > 5 {
        t.subrange(1, t.len() as int)
    } else {
        t
    }
}

proof fn lemma_lag_sum_monotone(s: Seq<u32>, k: int)
    requires
        0 <= k <= s.len(),
    ensures
        lag_sum(s.subrange(0, k)) <= lag_sum(s),
    decreases s.len() - k,
{
    if k == s.len() {
        assert(s.subrange(0, k) =~= s);
    } else {
        lemma_lag_sum_monotone(s, k + 1);
        lemma_lag_sum_prefix(s, k + 1);
    }
}

proof fn lemma_lag_sum_prefix(s: Seq<u32>, k: int)
    requires
        0 < k <= s.len(),
    ensures
        lag_sum(s.subrange(0, k)) == lag_sum(s.subrange(0, k - 1)) + s[k - 1],
        lag_sum(s.subrange(0, k - 1)) <= lag_sum(s.subrange(0, k)),
{
    assert(s.subrange(0, k).drop_last() =~= s.subrange(0, k - 1));
}


/// A capture is played without delay.
pub proof fn lemma_capture_is_instant(cfg: HumanConfig, stats: TimingStats, piece_count: int, rolls: HumanRolls)
    ensures
        human_delay(cfg, stats, piece_count, true, rolls) == 0,
{
}

/// With few pieces left the delay stays within the premove range, and with some
/// more within the low-piece range.
pub proof fn lemma_short_delays_in_range(
    cfg: HumanConfig,
    stats: TimingStats,
    piece_count: int,
    rolls: HumanRolls,
)
    requires
        rolls_in_range(rolls),
        cfg.premove_delay_ms <= cfg.premove_max_ms,
        cfg.low_piece_delay_ms <= cfg.low_piece_max_ms,
    ensures
        is_premove(cfg, piece_count) ==> cfg.premove_delay_ms <= human_delay(cfg, stats, piece_count, false, rolls)
            <= cfg.premove_max_ms,
        is_low_piece(cfg, piece_count) ==> cfg.low_piece_delay_ms <= human_delay(
            cfg,
            stats,
            piece_count,
            false,
            rolls,
        ) <= cfg.low_piece_max_ms,
{
    lemma_span_delay_range(cfg.premove_delay_ms as int, cfg.premove_max_ms as int, rolls.first as int);
    lemma_span_delay_range(cfg.low_piece_delay_ms as int, cfg.low_piece_max_ms as int, rolls.first as int);
}

proof fn lemma_span_delay_range(lo: int, hi: int, r: int)
    requires
        0 <= lo <= hi,
        0 <= r < 1000000,
    ensures
        lo <= span_delay(lo, hi, r) <= hi,
{
    assert(r * (hi - lo) <= 1000000 * (hi - lo)) by (nonlinear_arith)
        requires
            0 <= r < 1000000,
            hi - lo >= 0,
    ;
    assert(r * (hi - lo) >= 0) by (nonlinear_arith)
        requires
            0 <= r,
            hi - lo >= 0,
    ;
    lemma_round_div_le(lo * 1000000 + r * (hi - lo), 1000000, hi);
    lemma_round_div_ge(lo * 1000000 + r * (hi - lo), 1000000, lo);
}

/// Outside the premove and low-piece ranges a delay never exceeds the preset's
/// maximum.
pub proof fn lemma_normal_delay_capped(cfg: HumanConfig, stats: TimingStats, piece_count: int, rolls: HumanRolls)
    requires
        rolls_in_range(rolls),
        !is_premove(cfg, piece_count),
        !is_low_piece(cfg, piece_count),
        rolls.second >= cfg.quick_move_chance_ppm && rolls.second < cfg.quick_move_chance_ppm
            + cfg.tank_chance_ppm ==> cfg.tank_max_ms >= cfg.tank_min_ms,
    ensures
        0 <= human_delay(cfg, stats, piece_count, false, rolls) <= cfg.max_delay_ms,
{
    let uu = unit() * unit();
    let v = normal_scaled(cfg, rolls);
    assert(v >= 0) by (nonlinear_arith)
        requires
            v == normal_scaled(cfg, rolls),
            rolls.third >= 0,
            cfg.quick_move_ms >= 0,
            cfg.tank_min_ms >= 0,
            rolls.second >= cfg.quick_move_chance_ppm && rolls.second < cfg.quick_move_chance_ppm
                + cfg.tank_chance_ppm ==> cfg.tank_max_ms >= cfg.tank_min_ms,
            cfg.max_delay_ms >= 0,
    ;
    let n = stats.total_moves as int;
    let s = stats.total_time_ms + stats.engine_time_ms;
    if n > 5 && s > 580 * n {
        if 1160 * n >= s {
            assert(v * 580 * n <= cfg.max_delay_ms * (s * uu)) by (nonlinear_arith)
                requires
                    0 <= v <= cfg.max_delay_ms * uu,
                    580 * n < s,
                    n >= 0,
                    uu > 0,
            ;
            assert(v * 580 * n >= 0) by (nonlinear_arith)
                requires
                    v >= 0,
                    n >= 0,
            ;
            assert(s * uu > 0) by (nonlinear_arith)
                requires
                    s > 0,
                    uu > 0,
            ;
            lemma_round_div_le(v * 580 * n, s * uu, cfg.max_delay_ms as int);
        } else {
            assert(v <= cfg.max_delay_ms * (2 * uu)) by (nonlinear_arith)
                requires
                    0 <= v <= cfg.max_delay_ms * uu,
                    uu > 0,
                    cfg.max_delay_ms >= 0,
            ;
            lemma_round_div_le(v, 2 * uu, cfg.max_delay_ms as int);
        }
    } else {
        lemma_round_div_le(v, uu, cfg.max_delay_ms as int);
    }
}

/// Recording a lag keeps at most five entries, the newest last, each taken from
/// the entries before it in their order.
pub proof fn lemma_lag_window(s: Seq<u32>, lag: u32)
    requires
        s.len() <= 5,
    ensures
        lag_window(s, lag).len() <= 5,
        lag_window(s, lag).len() > 0,
        lag_window(s, lag).last() == lag,
        lag_window(s, lag).len() == if s.len() == 5 { 5 } else { s.len() + 1 },
        lag_window(s, lag) == s.push(lag).subrange(s.len() + 1 - lag_window(s, lag).len(), s.len() + 1int),
{
    let t = s.push(lag);
    if t.len() > 5 {
        assert(t.subrange(1, t.len() as int) =~= s.push(lag).subrange(1, 6));
    } else {
        assert(t =~= s.push(lag).subrange(0, s.len() + 1int));
    }
}

/// Panic mode never claims less lag than normal mode, and a normal claim is never
/// above the mean lag plus the VPN offset.
pub proof fn lemma_panic_claims_more(avg: int, vpn: int)
    requires
        avg >= 0,
        vpn >= 0,
    ensures
        panic_lag_claim(avg, vpn) >= lag_claim(avg, vpn),
        lag_claim(avg, vpn) <= avg + vpn,
        panic_lag_claim(avg, vpn) <= avg + vpn + 30,
{
}

/// The lag claimed with a move is the mean lag plus the VPN offset, capped at twice
/// the mean lag but never below 100 ms: so it is at least the smaller of the mean
/// lag plus the offset and 100, at least the smaller of that sum and twice the mean,
/// at most the sum, and the sum itself whenever the sum is at most 100.
pub proof fn lemma_lag_claim_bounds(avg: int, vpn: int)
    requires
        0 <= avg <= u32::MAX,
        vpn >= 0,
    ensures
        lag_claim(avg, vpn) <= avg + vpn,
        lag_claim(avg, vpn) >= if avg + vpn < 100 { avg + vpn } else { 100 },
        ({
            let m = if 2 * avg > u32::MAX { u32::MAX as int } else { 2 * avg };
            lag_claim(avg, vpn) >= if avg + vpn < m { avg + vpn } else { m }
        }),
        avg + vpn <= 100 ==> lag_claim(avg, vpn) == avg + vpn,
        lag_claim(avg, vpn) == avg + vpn || lag_claim(avg, vpn) == 100 || lag_claim(avg, vpn) == (
        if 2 * avg > u32::MAX { u32::MAX as int } else { 2 * avg }),
        panic_lag_claim(avg, vpn) <= avg + vpn + 30,
        panic_lag_claim(avg, vpn) >= if avg + vpn + 30 < 200 { avg + vpn + 30 } else { 200 },
        avg + vpn + 30 <= 200 ==> panic_lag_claim(avg, vpn) == avg + vpn + 30,
{
}

/// A quick move, chosen when the second fraction falls below the quick-move chance,
/// is played between `quick_move_ms` and `quick_move_ms + 50` milliseconds (placed
/// by the third fraction), capped at the maximum delay. Before any averaging (at
/// most five moves played) that is the delay itself, in whole milliseconds.
pub proof fn lemma_quick_move_delay(cfg: HumanConfig, stats: TimingStats, piece_count: int, rolls: HumanRolls)
    requires
        rolls_in_range(rolls),
        rolls.second < cfg.quick_move_chance_ppm,
    ensures
        ({
            let uu = 1000000000000int;
            let v = normal_scaled(cfg, rolls);
            let lo = if cfg.quick_move_ms <= cfg.max_delay_ms { cfg.quick_move_ms as int } else { cfg.max_delay_ms as int };
            let hi = if cfg.quick_move_ms + 50 <= cfg.max_delay_ms { cfg.quick_move_ms + 50 } else { cfg.max_delay_ms as int };
            &&& lo * uu <= v <= hi * uu
            &&& v == (cfg.quick_move_ms * 1000000 + rolls.third * 50) * 1000000 || v == cfg.max_delay_ms * uu
        }),
        !is_premove(cfg, piece_count) && !is_low_piece(cfg, piece_count) && stats.total_moves <= 5 ==> {
            let d = human_delay(cfg, stats, piece_count, false, rolls);
            &&& d >= if cfg.quick_move_ms <= cfg.max_delay_ms { cfg.quick_move_ms as int } else { cfg.max_delay_ms as int }
            &&& d <= if cfg.quick_move_ms + 50 <= cfg.max_delay_ms { cfg.quick_move_ms + 50 } else { cfg.max_delay_ms as int }
        },
{
    let uu = 1000000000000int;
    let v = normal_scaled(cfg, rolls);
    let lo = if cfg.quick_move_ms <= cfg.max_delay_ms { cfg.quick_move_ms as int } else { cfg.max_delay_ms as int };
    let hi = if cfg.quick_move_ms + 50 <= cfg.max_delay_ms { cfg.quick_move_ms + 50 } else { cfg.max_delay_ms as int };
    assert(lo * uu <= v <= hi * uu);
    if !is_premove(cfg, piece_count) && !is_low_piece(cfg, piece_count) && stats.total_moves <= 5 {
        assert(human_delay(cfg, stats, piece_count, false, rolls) == round_div(v, uu));
        lemma_round_div_exact(lo, uu);
        lemma_round_div_exact(hi, uu);
        lemma_round_div_monotone(lo * uu, v, uu);
        lemma_round_div_monotone(v, hi * uu, uu);
    }
}

proof fn lemma_round_div_exact(x: int, den: int)
    requires
        x >= 0,
        den > 0,
    ensures
        round_div(x * den, den) == x,
{
    assert((2 * (x * den) + den) / (2 * den) == x) by (nonlinear_arith)
        requires
            x >= 0,
            den > 0,
    {
        assert(2 * (x * den) + den == x * (2 * den) + den);
        assert(0 <= den < 2 * den);
        vstd::arithmetic::div_mod::lemma_fundamental_div_mod_converse(
            2 * (x * den) + den,
            2 * den,
            x,
            den,
        );
    }
}

proof fn lemma_round_div_monotone(a: int, b: int, den: int)
    requires
        a <= b,
        den > 0,
    ensures
        round_div(a, den) <= round_div(b, den),
{
    assert((2 * a + den) / (2 * den) <= (2 * b + den) / (2 * den)) by (nonlinear_arith)
        requires
            a <= b,
            den > 0,
    ;
}

/// A long think, chosen when the second fraction falls past the quick-move chance
/// but below it plus the tank chance, lasts between `tank_min_ms` and `tank_max_ms`
/// (placed by the third fraction), capped at the maximum delay.
pub proof fn lemma_tank_delay(cfg: HumanConfig, rolls: HumanRolls)
    requires
        rolls_in_range(rolls),
        cfg.quick_move_chance_ppm <= rolls.second < cfg.quick_move_chance_ppm + cfg.tank_chance_ppm,
        cfg.tank_min_ms <= cfg.tank_max_ms,
    ensures
        ({
            let uu = 1000000000000int;
            let v = normal_scaled(cfg, rolls);
            let lo = if cfg.tank_min_ms <= cfg.max_delay_ms { cfg.tank_min_ms as int } else { cfg.max_delay_ms as int };
            let hi = if cfg.tank_max_ms <= cfg.max_delay_ms { cfg.tank_max_ms as int } else { cfg.max_delay_ms as int };
            lo * uu <= v <= hi * uu
        }),
{
    let d = cfg.tank_max_ms - cfg.tank_min_ms;
    let t = rolls.third as int;
    assert(0 <= t * d <= 1000000 * d) by (nonlinear_arith)
        requires
            0 <= t < 1000000,
            d >= 0,
    ;
    let raw = (cfg.tank_min_ms * 1000000 + rolls.third * (cfg.tank_max_ms - cfg.tank_min_ms)) * 1000000;
    assert(raw == cfg.tank_min_ms * 1000000000000 + t * d * 1000000);
    assert(cfg.tank_min_ms * 1000000000000int <= raw <= cfg.tank_max_ms * 1000000000000int);
    assert(normal_scaled(cfg, rolls) == if raw > cfg.max_delay_ms * 1000000000000int {
        cfg.max_delay_ms * 1000000000000int
    } else {
        raw
    });
}

} // verus!
