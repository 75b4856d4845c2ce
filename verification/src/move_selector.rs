//! Choosing which of the engine's principal variations to play.
//!
//! In varied mode a move is drawn among the first four variations that do not
//! simplify into a bare-material draw, weighted by the preset's weights less a
//! tenth of the centipawns each gives up; a move that gives up too much is only
//! eligible when a blunder is allowed for this move. Weights are counted in
//! tenths and random fractions in millionths.
use vstd::prelude::*;
use crate::chess_logic::{draws_by_material, uci_breaks_board, GameState};
use crate::engine::stockfish::PVView;
use crate::engine::PVLine;
use crate::rng::{random_fraction, PPM};
use crate::timing::VariedConfig;

verus! {

/// How often each variation was played, and how many blunders, over all games.
#[derive(Debug, Clone, Copy)]
pub struct VarietyStats {
    pub pv1: u32,
    pub pv2: u32,
    pub pv3: u32,
    pub pv4: u32,
    pub blunders: u32,
}

impl Default for VarietyStats {
    fn default() -> (s: Self)
        ensures
            s == (VarietyStats { pv1: 0, pv2: 0, pv3: 0, pv4: 0, blunders: 0 }),
    {
        VarietyStats { pv1: 0, pv2: 0, pv3: 0, pv4: 0, blunders: 0 }
    }
}

/// The move chosen, with where it came from.
pub struct SelectedMove {
    pub uci: String,
    pub pv_index: u8,
    pub eval_cp: Option<i32>,
    pub is_blunder: bool,
}

/// The move selector: the blunders of the current game and the statistics.
pub struct MoveSelector {
    pub game_blunder_count: u8,
    pub variety_stats: VarietyStats,
}

/// The random fractions one varied selection draws, in millionths: whether a
/// blunder is allowed, and which candidate is picked.
pub struct SelectionRolls {
    pub blunder: u32,
    pub pick: u32,
}

/// A move that may be picked.
pub struct Candidate {
    /// Where its variation stands among the engine's variations.
    pub pv: int,
    /// Where its variation stands among the non-drawing ones.
    pub idx: int,
    /// Its weight, in tenths.
    pub weight: int,
    pub is_blunder: bool,
}

/// What was chosen.
pub struct Choice {
    /// Where the chosen variation stands among the engine's variations.
    pub pv: int,
    pub pv_index: int,
    pub is_blunder: bool,
}

/// The views of the variations.
pub open spec fn views(pvs: Seq<PVLine>) -> Seq<PVView> {
    pvs.map_values(|p: PVLine| p@)
}

/// The evaluation of a variation, 0 when it has none.
pub open spec fn eval_or_zero(p: PVView) -> int {
    match p.eval_cp {
        Some(e) => e as int,
        None => 0,
    }
}

/// The places of the variations among the first `n` whose first move does not
/// leave bare material.
pub open spec fn valid_indices(fen: Seq<char>, pvs: Seq<PVView>, n: int) -> Seq<int>
    decreases n,
{
    if n <= 0 {
        Seq::empty()
    } else {
        let r = valid_indices(fen, pvs, n - 1);
        if !draws_by_material(fen, pvs[n - 1].first_move) {
            r.push(n - 1)
        } else {
            r
        }
    }
}

/// Is the variation a mate against us within three moves?
pub open spec fn gets_mated(p: PVView) -> bool {
    match p.mate_val {
        Some(m) => m < 0 && m >= -3,
        None => false,
    }
}

/// The candidate that the variation at `pv` (the `idx`-th non-drawing one) makes,
/// if it is eligible.
pub open spec fn candidate(
    cfg: VariedConfig,
    top: int,
    allow_blunder: bool,
    idx: int,
    pv: int,
    p: PVView,
) -> Option<Candidate> {
    let loss = top - eval_or_zero(p);
    let base = 10 * (cfg.weights@[idx] as int);
    let w = if cfg.max_cp_loss < 1000 { base - loss } else { base };
    if gets_mated(p) {
        None
    } else if loss > cfg.max_cp_loss && !allow_blunder {
        None
    } else {
        Some(
            Candidate {
                pv,
                idx,
                weight: if w < 30 { 30 } else { w },
                is_blunder: loss >= cfg.blunder_threshold,
            },
        )
    }
}

/// The candidates among the first `n` non-drawing variations.
pub open spec fn candidates(
    cfg: VariedConfig,
    top: int,
    allow_blunder: bool,
    pvs: Seq<PVView>,
    vi: Seq<int>,
    n: int,
) -> Seq<Candidate>
    decreases n,
{
    if n <= 0 {
        Seq::empty()
    } else {
        let r = candidates(cfg, top, allow_blunder, pvs, vi, n - 1);
        match candidate(cfg, top, allow_blunder, n - 1, vi[n - 1], pvs[vi[n - 1]]) {
            Some(c) => r.push(c),
            None => r,
        }
    }
}

/// The sum of the weights of the first `n` candidates.
pub open spec fn weight_sum(cs: Seq<Candidate>, n: int) -> int
    decreases n,
{
    if n <= 0 {
        0
    } else {
        weight_sum(cs, n - 1) + cs[n - 1].weight
    }
}

/// The first candidate from `j` on whose running weight reaches the drawn share
/// of the total (`0` if none does).
pub open spec fn pick_from(cs: Seq<Candidate>, roll: int, total: int, j: int) -> int
    decreases cs.len() - j,
{
    if j < 0 || j >= cs.len() {
        0
    } else if roll * total <= (PPM as int) * weight_sum(cs, j + 1) {
        j
    } else {
        pick_from(cs, roll, total, j + 1)
    }
}

/// The number of variations looked at.
pub open spec fn considered(vi: Seq<int>) -> int {
    if vi.len() < 4 {
        vi.len() as int
    } else {
        4
    }
}

/// Is a blunder allowed for this move?
pub open spec fn blunder_allowed(cfg: VariedConfig, blunder_count: u8, top: int, roll: int) -> bool {
    blunder_count < cfg.max_blunders_per_game && top > -100 && roll < cfg.blunder_chance_ppm
}

/// What varied selection chooses: the best variation when every one draws or none
/// is eligible, otherwise the candidate the pick fraction falls on.
pub open spec fn varied_choice(
    fen: Seq<char>,
    pvs: Seq<PVView>,
    cfg: VariedConfig,
    blunder_count: u8,
    rolls: SelectionRolls,
) -> Option<Choice> {
    let vi = valid_indices(fen, pvs, pvs.len() as int);
    if pvs.len() == 0 {
        None
    } else if vi.len() == 0 {
        Some(Choice { pv: 0, pv_index: 0, is_blunder: false })
    } else {
        let top = eval_or_zero(pvs[vi[0]]);
        let allow = blunder_allowed(cfg, blunder_count, top, rolls.blunder as int);
        let cs = candidates(cfg, top, allow, pvs, vi, considered(vi));
        if cs.len() == 0 {
            Some(Choice { pv: vi[0], pv_index: 0, is_blunder: false })
        } else {
            let c = cs[pick_from(cs, rolls.pick as int, weight_sum(cs, cs.len() as int), 0)];
            Some(Choice { pv: c.pv, pv_index: c.idx, is_blunder: c.is_blunder })
        }
    }
}

/// Can the centipawn losses of the variations looked at be computed in `i32`?
pub open spec fn losses_fit(fen: Seq<char>, pvs: Seq<PVView>) -> bool {
    let vi = valid_indices(fen, pvs, pvs.len() as int);
    vi.len() > 0 ==> forall|j: int|
        0 <= j < considered(vi) ==> i32::MIN <= eval_or_zero(pvs[vi[0]]) - eval_or_zero(
            #[trigger] pvs[vi[j]],
        ) <= i32::MAX
}

/// Can every first move be looked at on the board without making the `chess`
/// crate fail?
pub open spec fn moves_playable(fen: Seq<char>, pvs: Seq<PVView>) -> bool {
    forall|i: int| 0 <= i < pvs.len() ==> !uci_breaks_board(fen, #[trigger] pvs[i].first_move)
}

/// Are the counters far enough from their limits for one more selection?
pub open spec fn counters_have_room(s: MoveSelector) -> bool {
    &&& s.game_blunder_count < u8::MAX
    &&& s.variety_stats.pv1 < u32::MAX
    &&& s.variety_stats.pv2 < u32::MAX
    &&& s.variety_stats.pv3 < u32::MAX
    &&& s.variety_stats.pv4 < u32::MAX
    &&& s.variety_stats.blunders < u32::MAX
}

/// The statistics after playing the `pv_index`-th variation.
pub open spec fn counted(s: VarietyStats, pv_index: int, is_blunder: bool) -> VarietyStats {
    VarietyStats {
        pv1: if pv_index == 0 { (s.pv1 + 1) as u32 } else { s.pv1 },
        pv2: if pv_index == 1 { (s.pv2 + 1) as u32 } else { s.pv2 },
        pv3: if pv_index == 2 { (s.pv3 + 1) as u32 } else { s.pv3 },
        pv4: if pv_index >= 3 { (s.pv4 + 1) as u32 } else { s.pv4 },
        blunders: if is_blunder { (s.blunders + 1) as u32 } else { s.blunders },
    }
}

/// The selector after a choice, and the move handed out for it.
pub open spec fn chose(
    old: MoveSelector,
    new: MoveSelector,
    pvs: Seq<PVView>,
    choice: Choice,
    r: SelectedMove,
) -> bool {
    &&& r.uci@ == pvs[choice.pv].first_move
    &&& r.pv_index == choice.pv_index
    &&& r.eval_cp == pvs[choice.pv].eval_cp
    &&& r.is_blunder == choice.is_blunder
    &&& new.variety_stats == counted(old.variety_stats, choice.pv_index, choice.is_blunder)
    &&& new.game_blunder_count == if choice.is_blunder {
        (old.game_blunder_count + 1) as u8
    } else {
        old.game_blunder_count
    }
}

/// Are both fractions below one?
pub open spec fn selection_rolls_in_range(rolls: SelectionRolls) -> bool {
    rolls.blunder < PPM && rolls.pick < PPM
}

/// A candidate's place in the vectors the selection works on.
struct CandidateSlot {
    pv: usize,
    idx: usize,
    weight: i64,
    is_blunder: bool,
}

impl CandidateSlot {
    spec fn view(&self) -> Candidate {
        Candidate { pv: self.pv as int, idx: self.idx as int, weight: self.weight as int, is_blunder: self.is_blunder }
    }
}

spec fn slot_views(v: Seq<CandidateSlot>) -> Seq<Candidate> {
    v.map_values(|c: CandidateSlot| c.view())
}

proof fn lemma_valid_indices_bounds(fen: Seq<char>, pvs: Seq<PVView>, n: int)
    requires
        0 <= n <= pvs.len(),
    ensures
        valid_indices(fen, pvs, n).len() <= n,
        forall|j: int|
            0 <= j < valid_indices(fen, pvs, n).len() ==> 0 <= #[trigger] valid_indices(fen, pvs, n)[j] < n,
        forall|a: int, b: int|
            0 <= a < b < valid_indices(fen, pvs, n).len() ==> valid_indices(fen, pvs, n)[a]
                < valid_indices(fen, pvs, n)[b],
    decreases n,
{
    if n > 0 {
        lemma_valid_indices_bounds(fen, pvs, n - 1);
    }
}

proof fn lemma_weight_sum_bounds(cs: Seq<Candidate>, n: int, lo: int, hi: int)
    requires
        0 <= n <= cs.len(),
        forall|j: int| 0 <= j < cs.len() ==> lo <= #[trigger] cs[j].weight <= hi,
        0 <= lo <= hi,
    ensures
        n * lo <= weight_sum(cs, n) <= n * hi,
        n <= 4 ==> weight_sum(cs, n) <= 4 * hi,
    decreases n,
{
    if n <= 4 {
        assert(n * hi <= 4 * hi) by (nonlinear_arith)
            requires
                n <= 4,
                hi >= lo,
                lo >= 0,
        ;
    }
    if n == 0 {
        assert(n * lo == 0 && n * hi == 0) by (nonlinear_arith)
            requires
                n == 0,
        ;
    } else {
        lemma_weight_sum_bounds(cs, n - 1, lo, hi);
        assert(n * lo == (n - 1) * lo + lo) by (nonlinear_arith);
        assert(n * hi == (n - 1) * hi + hi) by (nonlinear_arith);
    }
}

impl MoveSelector {
    /// A selector with no blunders and no statistics.
    pub fn new() -> (s: MoveSelector)
        ensures
            s.game_blunder_count == 0,
            s.variety_stats == (VarietyStats { pv1: 0, pv2: 0, pv3: 0, pv4: 0, blunders: 0 }),
    {
        MoveSelector { game_blunder_count: 0, variety_stats: VarietyStats::default() }
    }

    /// The places of the variations whose first move does not leave bare material.
    fn filter_draw_moves(&self, pvs: &[PVLine], game: &GameState) -> (r: Vec<usize>)
        requires
            moves_playable(game.board@, views(pvs@)),
        ensures
            r@.len() == valid_indices(game.board@, views(pvs@), pvs@.len() as int).len(),
            forall|j: int|
                0 <= j < r@.len() ==> #[trigger] r@[j] as int == valid_indices(
                    game.board@,
                    views(pvs@),
                    pvs@.len() as int,
                )[j],
    {
        let ghost ps = views(pvs@);
        let mut r: Vec<usize> = Vec::new();
        let mut i: usize = 0;
        while i < pvs.len()
            invariant
                i <= pvs@.len(),
                ps == views(pvs@),
                moves_playable(game.board@, ps),
                r@.len() == valid_indices(game.board@, ps, i as int).len(),
                forall|j: int|
                    0 <= j < r@.len() ==> #[trigger] r@[j] as int == valid_indices(game.board@, ps, i as int)[j],
            decreases pvs@.len() - i,
        {
            assert(ps[i as int] == pvs@[i as int]@);
            assert(!uci_breaks_board(game.board@, ps[i as int].first_move));
            if !game.would_draw(pvs[i].first_move.as_str()) {
                r.push(i);
            }
            i = i + 1;
        }
        r
    }

    /// Chooses among the variations for given random fractions (varied mode).
    pub fn select_varied_move_with(
        &mut self,
        pvs: &[PVLine],
        game: &GameState,
        cfg: &VariedConfig,
        rolls: &SelectionRolls,
    ) -> (r: Option<SelectedMove>)
        requires
            selection_rolls_in_range(*rolls),
            moves_playable(game.board@, views(pvs@)),
            losses_fit(game.board@, views(pvs@)),
            pvs@.len() > 0 ==> counters_have_room(*old(self)),
        ensures
            match varied_choice(game.board@, views(pvs@), *cfg, old(self).game_blunder_count, *rolls) {
                None => r is None && *final(self) == *old(self),
                Some(c) => r matches Some(m) && chose(*old(self), *final(self), views(pvs@), c, m),
            },
    {
        let ghost ps = views(pvs@);
        if pvs.len() == 0 {
            return None;
        }
        let valid = self.filter_draw_moves(pvs, game);
        let ghost vi = valid_indices(game.board@, ps, ps.len() as int);
        proof {
            lemma_valid_indices_bounds(game.board@, ps, ps.len() as int);
        }
        if valid.len() == 0 {
            self.variety_stats.pv1 = self.variety_stats.pv1 + 1;
            assert(ps[0] == pvs@[0]@);
            return Some(
                SelectedMove {
                    uci: pvs[0].first_move.clone(),
                    pv_index: 0,
                    eval_cp: pvs[0].eval_cp,
                    is_blunder: false,
                },
            );
        }
        let v0 = valid[0];
        assert(ps[vi[0]] == pvs@[v0 as int]@);
        let top: i32 = match pvs[v0].eval_cp {
            Some(e) => e,
            None => 0,
        };
        let allow_blunder = self.game_blunder_count < cfg.max_blunders_per_game && top > -100
            && rolls.blunder < cfg.blunder_chance_ppm;
        // build the candidates among the first four non-drawing variations
        let limit: usize = if valid.len() < 4 {
            valid.len()
        } else {
            4
        };
        let mut slots: Vec<CandidateSlot> = Vec::new();
        let mut j: usize = 0;
        while j < limit
            invariant
                j <= limit,
                limit == considered(vi),
                limit <= valid@.len(),
                valid@.len() == vi.len(),
                forall|k: int| 0 <= k < valid@.len() ==> #[trigger] valid@[k] as int == vi[k],
                forall|k: int| 0 <= k < vi.len() ==> 0 <= #[trigger] vi[k] < ps.len(),
                ps == views(pvs@),
                ps.len() == pvs@.len(),
                top == eval_or_zero(ps[vi[0]]),
                losses_fit(game.board@, ps),
                vi == valid_indices(game.board@, ps, ps.len() as int),
                vi.len() > 0,
                slot_views(slots@) == candidates(
                    *cfg,
                    top as int,
                    allow_blunder,
                    ps,
                    vi,
                    j as int,
                ),
                forall|k: int|
                    0 <= k < slots@.len() ==> 30 <= (#[trigger] slots@[k]).weight <= 2550 + 2147483648,
                forall|k: int| 0 <= k < slots@.len() ==> (#[trigger] slots@[k]).idx < 4,
                slots@.len() <= j,
                forall|k: int| 0 <= k < slots@.len() ==> (#[trigger] slots@[k]).pv < ps.len(),
            decreases limit - j,
        {
            let pi = valid[j];
            assert(ps[vi[j as int]] == pvs@[pi as int]@);
            let pv = &pvs[pi];
            let e: i32 = match pv.eval_cp {
                Some(e) => e,
                None => 0,
            };
            assert(i32::MIN <= top - e <= i32::MAX);
            let loss: i32 = top - e;
            let mated = match pv.mate_val {
                Some(m) => m < 0 && m >= -3,
                None => false,
            };
            let ghost before = slot_views(slots@);
            if !mated && !(loss > cfg.max_cp_loss && !allow_blunder) {
                let base: i64 = 10 * (cfg.weights[j] as i64);
                let w: i64 = if cfg.max_cp_loss < 1000 {
                    base - (loss as i64)
                } else {
                    base
                };
                let weight: i64 = if w < 30 {
                    30
                } else {
                    w
                };
                let slot = CandidateSlot { pv: pi, idx: j, weight, is_blunder: loss >= cfg.blunder_threshold };
                slots.push(slot);
                assert(slot_views(slots@) =~= before.push(slot.view()));
            }
            j = j + 1;
        }
        if slots.len() == 0 {
            self.variety_stats.pv1 = self.variety_stats.pv1 + 1;
            return Some(
                SelectedMove {
                    uci: pvs[v0].first_move.clone(),
                    pv_index: 0,
                    eval_cp: pvs[v0].eval_cp,
                    is_blunder: false,
                },
            );
        }
        let ghost cs = slot_views(slots@);
        // the total weight
        let mut total: i64 = 0;
        let mut k: usize = 0;
        proof {
            lemma_weight_sum_bounds(cs, cs.len() as int, 30, 2550 + 2147483648int);
        }
        while k < slots.len()
            invariant
                k <= slots@.len(),
                cs == slot_views(slots@),
                slots@.len() <= 4,
                total == weight_sum(cs, k as int),
                forall|q: int| 0 <= q < slots@.len() ==> 30 <= (#[trigger] slots@[q]).weight <= 2550 + 2147483648,
            decreases slots@.len() - k,
        {
            proof {
                lemma_weight_sum_bounds(cs, k + 1, 30, 2550 + 2147483648int);
            }
            total = total + slots[k].weight;
            k = k + 1;
        }
        // the pick
        let roll: i64 = rolls.pick as i64;
        proof {
            assert(roll * total <= 1000000 * (4 * (2550 + 2147483648))) by (nonlinear_arith)
                requires
                    0 <= roll < 1000000,
                    0 <= total <= 4 * (2550 + 2147483648),
            ;
            assert(0 <= roll * total < 1000000 * total) by (nonlinear_arith)
                requires
                    0 <= roll < 1000000,
                    0 < total,
            ;
        }
        let mut sel: usize = 0;
        let mut acc: i64 = 0;
        let mut q: usize = 0;
        while q < slots.len()
            invariant_except_break
                pick_from(cs, roll as int, total as int, q as int) == pick_from(
                    cs,
                    roll as int,
                    total as int,
                    0,
                ),
                acc == weight_sum(cs, q as int),
                q > 0 ==> roll * total > 1000000 * acc,
                sel == 0,
            invariant
                q <= slots@.len(),
                cs == slot_views(slots@),
                slots@.len() <= 4,
                total == weight_sum(cs, cs.len() as int),
                0 <= roll < 1000000,
                roll * total <= 1000000 * (4 * (2550 + 2147483648)),
                forall|p: int| 0 <= p < slots@.len() ==> 30 <= (#[trigger] slots@[p]).weight <= 2550 + 2147483648,
                0 <= roll * total,
                roll * total < 1000000 * total,
                slots@.len() > 0,
            ensures
                sel < slots@.len(),
                sel as int == pick_from(cs, roll as int, total as int, 0),
            decreases slots@.len() - q,
        {
            proof {
                lemma_weight_sum_bounds(cs, q + 1, 30, 2550 + 2147483648int);
            }
            acc = acc + slots[q].weight;
            if roll * total <= 1000000 * acc {
                sel = q;
                break;
            }
            q = q + 1;
        }
        let chosen = &slots[sel];
        let pi = chosen.pv;
        assert(cs[sel as int].pv < ps.len());
        assert(ps[pi as int] == pvs@[pi as int]@);
        match chosen.idx {
            0 => self.variety_stats.pv1 = self.variety_stats.pv1 + 1,
            1 => self.variety_stats.pv2 = self.variety_stats.pv2 + 1,
            2 => self.variety_stats.pv3 = self.variety_stats.pv3 + 1,
            _ => self.variety_stats.pv4 = self.variety_stats.pv4 + 1,
        }
        if chosen.is_blunder {
            self.game_blunder_count = self.game_blunder_count + 1;
            self.variety_stats.blunders = self.variety_stats.blunders + 1;
        }
        Some(
            SelectedMove {
                uci: pvs[pi].first_move.clone(),
                pv_index: chosen.idx as u8,
                eval_cp: pvs[pi].eval_cp,
                is_blunder: chosen.is_blunder,
            },
        )
    }

    /// Chooses among the variations in varied mode, drawing the random fractions.
    pub fn select_varied_move(&mut self, pvs: &[PVLine], game: &GameState, cfg: &VariedConfig) -> (r:
        Option<SelectedMove>)
        requires
            moves_playable(game.board@, views(pvs@)),
            losses_fit(game.board@, views(pvs@)),
            pvs@.len() > 0 ==> counters_have_room(*old(self)),
        ensures
            exists|rolls: SelectionRolls|
                #[trigger] selection_rolls_in_range(rolls) && match varied_choice(
                    game.board@,
                    views(pvs@),
                    *cfg,
                    old(self).game_blunder_count,
                    rolls,
                ) {
                    None => r is None && *final(self) == *old(self),
                    Some(c) => r matches Some(m) && chose(*old(self), *final(self), views(pvs@), c, m),
                },
    {
        let blunder = random_fraction();
        let pick = random_fraction();
        let rolls = SelectionRolls { blunder, pick };
        let r = self.select_varied_move_with(pvs, game, cfg, &rolls);
        assert(selection_rolls_in_range(rolls));
        r
    }

    /// Chooses the move to play: the best variation, or in varied mode a drawn one;
    /// nothing when the engine gave no variation.
    pub fn select_move(
        &mut self,
        pvs: &[PVLine],
        game: &GameState,
        varied_mode: bool,
        varied_config: &VariedConfig,
    ) -> (r: Option<SelectedMove>)
        requires
            varied_mode ==> moves_playable(game.board@, views(pvs@)),
            varied_mode ==> losses_fit(game.board@, views(pvs@)),
            varied_mode && pvs@.len() > 0 ==> counters_have_room(*old(self)),
            !varied_mode && pvs@.len() > 0 ==> old(self).variety_stats.pv1 < u32::MAX,
        ensures
            pvs@.len() == 0 ==> r is None && *final(self) == *old(self),
            pvs@.len() > 0 && !varied_mode ==> (r matches Some(m) && chose(
                *old(self),
                *final(self),
                views(pvs@),
                Choice { pv: 0, pv_index: 0, is_blunder: false },
                m,
            )),
            pvs@.len() > 0 && varied_mode ==> exists|rolls: SelectionRolls|
                #[trigger] selection_rolls_in_range(rolls) && match varied_choice(
                    game.board@,
                    views(pvs@),
                    *varied_config,
                    old(self).game_blunder_count,
                    rolls,
                ) {
                    None => r is None && *final(self) == *old(self),
                    Some(c) => r matches Some(m) && chose(*old(self), *final(self), views(pvs@), c, m),
                },
    {
        if pvs.len() == 0 {
            return None;
        }
        if varied_mode {
            self.select_varied_move(pvs, game, varied_config)
        } else {
            assert(views(pvs@)[0] == pvs@[0]@);
            self.variety_stats.pv1 = self.variety_stats.pv1 + 1;
            Some(
                SelectedMove {
                    uci: pvs[0].first_move.clone(),
                    pv_index: 0,
                    eval_cp: pvs[0].eval_cp,
                    is_blunder: false,
                },
            )
        }
    }

    /// Starts a new game: the blunder count goes back to zero; the statistics,
    /// which span games, stay.
    pub fn reset(&mut self)
        ensures
            final(self).game_blunder_count == 0,
            final(self).variety_stats == old(self).variety_stats,
    {
        self.game_blunder_count = 0;
    }
}

impl Default for MoveSelector {
    fn default() -> (s: Self)
        ensures
            s.game_blunder_count == 0,
            s.variety_stats == (VarietyStats { pv1: 0, pv2: 0, pv3: 0, pv4: 0, blunders: 0 }),
    {
        MoveSelector::new()
    }
}


/// Every selection counts exactly one more played variation.
pub proof fn lemma_one_variation_counted(s: VarietyStats, pv_index: int, is_blunder: bool)
    requires
        pv_index >= 0,
        s.pv1 < u32::MAX,
        s.pv2 < u32::MAX,
        s.pv3 < u32::MAX,
        s.pv4 < u32::MAX,
        s.blunders < u32::MAX,
    ensures
        counted(s, pv_index, is_blunder).pv1 + counted(s, pv_index, is_blunder).pv2 + counted(
            s,
            pv_index,
            is_blunder,
        ).pv3 + counted(s, pv_index, is_blunder).pv4 == s.pv1 + s.pv2 + s.pv3 + s.pv4 + 1,
        counted(s, pv_index, is_blunder).blunders == s.blunders + if is_blunder { 1int } else { 0int },
{
}

proof fn lemma_candidates_shape(
    cfg: VariedConfig,
    top: int,
    allow: bool,
    pvs: Seq<PVView>,
    vi: Seq<int>,
    n: int,
)
    requires
        0 <= n <= vi.len(),
    ensures
        candidates(cfg, top, allow, pvs, vi, n).len() <= n,
        forall|j: int|
            0 <= j < candidates(cfg, top, allow, pvs, vi, n).len() ==> {
                let c = #[trigger] candidates(cfg, top, allow, pvs, vi, n)[j];
                &&& 0 <= c.idx < n
                &&& c.pv == vi[c.idx]
                &&& !gets_mated(pvs[c.pv])
            },
    decreases n,
{
    if n > 0 {
        lemma_candidates_shape(cfg, top, allow, pvs, vi, n - 1);
    }
}

proof fn lemma_pick_in_range(cs: Seq<Candidate>, roll: int, total: int, j: int)
    requires
        cs.len() > 0,
    ensures
        0 <= pick_from(cs, roll, total, j) < cs.len(),
    decreases cs.len() - j,
{
    if 0 <= j < cs.len() {
        lemma_pick_in_range(cs, roll, total, j + 1);
    }
}

proof fn lemma_valid_are_non_drawing(fen: Seq<char>, pvs: Seq<PVView>, n: int)
    requires
        0 <= n <= pvs.len(),
    ensures
        forall|j: int|
            0 <= j < valid_indices(fen, pvs, n).len() ==> !draws_by_material(
                fen,
                pvs[#[trigger] valid_indices(fen, pvs, n)[j]].first_move,
            ),
    decreases n,
{
    if n > 0 {
        lemma_valid_are_non_drawing(fen, pvs, n - 1);
    }
}

/// Varied selection plays one of the first four variations that do not leave bare
/// material, and never one in which we get mated within three moves, whenever such
/// a choice exists; it falls back on the best variation otherwise.
pub proof fn lemma_varied_choice_is_sound(
    fen: Seq<char>,
    pvs: Seq<PVView>,
    cfg: VariedConfig,
    blunder_count: u8,
    rolls: SelectionRolls,
)
    requires
        pvs.len() > 0,
    ensures
        varied_choice(fen, pvs, cfg, blunder_count, rolls) matches Some(c) && 0 <= c.pv < pvs.len()
            && 0 <= c.pv_index < 4,
        valid_indices(fen, pvs, pvs.len() as int).len() > 0 ==> (varied_choice(
            fen,
            pvs,
            cfg,
            blunder_count,
            rolls,
        ) matches Some(c) && !draws_by_material(fen, pvs[c.pv].first_move)),
{
    let vi = valid_indices(fen, pvs, pvs.len() as int);
    lemma_valid_indices_bounds(fen, pvs, pvs.len() as int);
    lemma_valid_are_non_drawing(fen, pvs, pvs.len() as int);
    if vi.len() > 0 {
        let top = eval_or_zero(pvs[vi[0]]);
        let allow = blunder_allowed(cfg, blunder_count, top, rolls.blunder as int);
        let cs = candidates(cfg, top, allow, pvs, vi, considered(vi));
        lemma_candidates_shape(cfg, top, allow, pvs, vi, considered(vi));
        if cs.len() > 0 {
            let k = pick_from(cs, rolls.pick as int, weight_sum(cs, cs.len() as int), 0);
            lemma_pick_in_range(cs, rolls.pick as int, weight_sum(cs, cs.len() as int), 0);
            let c = cs[k];
            assert(c.pv == vi[c.idx]);
        }
    }
}

/// A variation that may be played weighs, in tenths, ten times its base weight
/// less the centipawns it loses against the best variation when losses count
/// (`max_cp_loss` below 1000), ten times its base weight otherwise, and never less
/// than 30. It is a blunder exactly when it loses at least the blunder threshold.
/// A variation in which we get mated within three moves is never a candidate, nor
/// one that loses more than `max_cp_loss` unless a blunder is allowed.
pub proof fn lemma_candidate_weight(
    cfg: VariedConfig,
    top: int,
    allow_blunder: bool,
    idx: int,
    pv: int,
    p: PVView,
)
    requires
        0 <= idx < 4,
    ensures
        ({
            let loss = top - eval_or_zero(p);
            let base = 10 * (cfg.weights@[idx] as int);
            let raw = if cfg.max_cp_loss < 1000 { base - loss } else { base };
            match candidate(cfg, top, allow_blunder, idx, pv, p) {
                Some(c) => {
                    &&& c.pv == pv
                    &&& c.idx == idx
                    &&& c.weight >= 30
                    &&& c.weight >= raw
                    &&& (c.weight == raw || (c.weight == 30 && raw < 30))
                    &&& (cfg.max_cp_loss < 1000 && loss >= 0 ==> c.weight <= if base > 30 { base } else { 30 })
                    &&& (c.is_blunder <==> loss >= cfg.blunder_threshold)
                    &&& !(p.mate_val matches Some(m) && -3 <= m < 0)
                    &&& (loss <= cfg.max_cp_loss || allow_blunder)
                },
                None => (p.mate_val matches Some(m) && -3 <= m < 0) || (loss > cfg.max_cp_loss && !allow_blunder),
            }
        }),
{
}

/// Of two variations in the same place with the same base weight, the one that
/// loses more centipawns never weighs more.
pub proof fn lemma_more_loss_weighs_less(
    cfg: VariedConfig,
    top: int,
    allow_blunder: bool,
    idx: int,
    pv1: int,
    p1: PVView,
    pv2: int,
    p2: PVView,
)
    requires
        0 <= idx < 4,
        candidate(cfg, top, allow_blunder, idx, pv1, p1) is Some,
        candidate(cfg, top, allow_blunder, idx, pv2, p2) is Some,
        eval_or_zero(p1) >= eval_or_zero(p2),
    ensures
        candidate(cfg, top, allow_blunder, idx, pv1, p1)->0.weight >= candidate(
            cfg,
            top,
            allow_blunder,
            idx,
            pv2,
            p2,
        )->0.weight,
{
    lemma_candidate_weight(cfg, top, allow_blunder, idx, pv1, p1);
    lemma_candidate_weight(cfg, top, allow_blunder, idx, pv2, p2);
}

proof fn lemma_pick_window(cs: Seq<Candidate>, roll: int, total: int, j: int)
    requires
        0 <= j < cs.len(),
        total == weight_sum(cs, cs.len() as int),
        total >= 0,
        0 <= roll < PPM,
        j > 0 ==> (PPM as int) * weight_sum(cs, j) < roll * total,
    ensures
        j <= pick_from(cs, roll, total, j) < cs.len(),
        roll * total <= (PPM as int) * weight_sum(cs, pick_from(cs, roll, total, j) + 1),
        pick_from(cs, roll, total, j) > 0 ==> (PPM as int) * weight_sum(cs, pick_from(cs, roll, total, j))
            < roll * total,
    decreases cs.len() - j,
{
    if roll * total > (PPM as int) * weight_sum(cs, j + 1) {
        if j + 1 < cs.len() {
            lemma_pick_window(cs, roll, total, j + 1);
        } else {
            assert(roll * total <= (PPM as int) * total) by (nonlinear_arith)
                requires
                    0 <= roll < PPM,
                    total >= 0,
            ;
        }
    }
}

/// The weighted draw: with the pick fraction `roll` (in millionths) the candidate
/// chosen is the one whose stretch of the running weights holds `roll` times the
/// total weight, so each candidate is chosen for a share of fractions
/// proportional to its weight.
pub proof fn lemma_pick_is_weighted(cs: Seq<Candidate>, roll: int)
    requires
        cs.len() > 0,
        0 <= roll < PPM,
        weight_sum(cs, cs.len() as int) >= 0,
    ensures
        ({
            let total = weight_sum(cs, cs.len() as int);
            let k = pick_from(cs, roll, total, 0);
            &&& 0 <= k < cs.len()
            &&& roll * total <= (PPM as int) * weight_sum(cs, k + 1)
            &&& (k > 0 ==> (PPM as int) * weight_sum(cs, k) < roll * total)
        }),
{
    lemma_pick_window(cs, roll, weight_sum(cs, cs.len() as int), 0);
}

} // verus!
