//! The parts of the Stockfish driver that read and write UCI text: reading the
//! `info` lines of a search into principal variations, and building commands.
use vstd::prelude::*;
use super::{EvalType, PVLine, SearchOptions};
use crate::text::{
    append_str, contains, decimal, decimal_string, has_prefix, occurs_in, parse_i32, parse_i32_spec, parse_u8,
    parse_u8_spec, split_whitespace, starts_with, std_split_whitespace, str_eq,
};

verus! {

/// A principal variation as plain values.
pub struct PVView {
    pub multipv: u8,
    pub eval_cp: Option<i32>,
    pub eval_type: EvalType,
    pub mate_val: Option<i32>,
    pub pv: Seq<Seq<char>>,
    pub first_move: Seq<char>,
}

impl View for PVLine {
    type V = PVView;

    open spec fn view(&self) -> PVView {
        PVView {
            multipv: self.multipv,
            eval_cp: self.eval_cp,
            eval_type: self.eval_type,
            mate_val: self.mate_val,
            pv: self.pv@.map_values(|s: String| s@),
            first_move: self.first_move@,
        }
    }
}

/// What has been read of an `info` line so far.
pub struct InfoScan {
    pub multipv: u8,
    pub eval_cp: Option<i32>,
    pub eval_type: EvalType,
    pub mate_val: Option<i32>,
    /// Where the moves of the variation start, once `pv` was read.
    pub pv_start: Option<int>,
    /// A mate score whose centipawn value does not fit in an `i32`.
    pub overflow: bool,
}

/// Nothing read yet.
pub open spec fn scan_start() -> InfoScan {
    InfoScan {
        multipv: 1,
        eval_cp: None,
        eval_type: EvalType::Centipawn,
        mate_val: None,
        pv_start: None,
        overflow: false,
    }
}

/// The centipawn value reported for a mate in `m` moves.
pub open spec fn mate_cp(m: int) -> int {
    if m > 0 {
        100000 + m
    } else {
        -100000 + m
    }
}

/// Does `v` fit in an `i32`?
pub open spec fn fits_i32(v: int) -> bool {
    i32::MIN <= v <= i32::MAX
}

/// The state after reading `score <kind> <value>`.
pub open spec fn read_score(st: InfoScan, kind: Seq<char>, value: Seq<char>) -> InfoScan {
    if kind == "cp"@ {
        InfoScan {
            eval_cp: match parse_i32_spec(value) {
                Some(v) => Some(v as i32),
                None => None,
            },
            eval_type: EvalType::Centipawn,
            ..st
        }
    } else if kind == "mate"@ {
        match parse_i32_spec(value) {
            Some(m) => InfoScan {
                mate_val: Some(m as i32),
                eval_cp: Some(mate_cp(m) as i32),
                eval_type: EvalType::Mate,
                overflow: st.overflow || !fits_i32(mate_cp(m)),
                ..st
            },
            None => InfoScan { mate_val: None, eval_type: EvalType::Mate, ..st },
        }
    } else {
        st
    }
}

/// Reading the words of an `info` line from position `i` on, in state `st`: a
/// `multipv` word takes the next word as the line's number (1 when it is not a
/// number), `score cp <n>` and `score mate <n>` set the evaluation, `pv` starts the
/// moves, and any other word is skipped.
pub open spec fn scan(parts: Seq<Seq<char>>, i: int, st: InfoScan) -> InfoScan
    decreases parts.len() - i,
{
    if i < 0 || i >= parts.len() {
        st
    } else if parts[i] == "multipv"@ {
        if i + 1 < parts.len() {
            scan(parts, i + 2, InfoScan {
                multipv: match parse_u8_spec(parts[i + 1]) {
                    Some(v) => v as u8,
                    None => 1,
                },
                ..st
            })
        } else {
            st
        }
    } else if parts[i] == "score"@ {
        if i + 2 < parts.len() {
            scan(parts, i + 3, read_score(st, parts[i + 1], parts[i + 2]))
        } else {
            scan(parts, i + 1, st)
        }
    } else if parts[i] == "pv"@ {
        InfoScan { pv_start: Some(i + 1), ..st }
    } else {
        scan(parts, i + 1, st)
    }
}

/// The variation the words of an `info` line describe: present when `pv` is
/// followed by at least one move.
pub open spec fn info_from_parts(parts: Seq<Seq<char>>) -> Option<PVView> {
    let st = scan(parts, 0, scan_start());
    match st.pv_start {
        Some(s) => if 0 <= s < parts.len() {
            Some(
                PVView {
                    multipv: st.multipv,
                    eval_cp: st.eval_cp,
                    eval_type: st.eval_type,
                    mate_val: st.mate_val,
                    pv: parts.subrange(s, parts.len() as int),
                    first_move: parts[s],
                },
            )
        } else {
            None
        },
        None => None,
    }
}

/// Would reading these words compute a mate score that does not fit in an `i32`?
pub open spec fn info_overflows(parts: Seq<Seq<char>>) -> bool {
    scan(parts, 0, scan_start()).overflow
}

/// The variation an engine output line describes, if it is an `info` line with moves.
pub open spec fn info_line(line: Seq<char>) -> Option<PVView> {
    if has_prefix(line, "info "@) {
        info_from_parts(std_split_whitespace(line))
    } else {
        None
    }
}

/// The character sequences of a vector of strings.
pub open spec fn texts(v: Seq<String>) -> Seq<Seq<char>> {
    v.map_values(|s: String| s@)
}

proof fn lemma_scan_keeps_overflow(parts: Seq<Seq<char>>, i: int, st: InfoScan)
    requires
        st.overflow,
    ensures
        scan(parts, i, st).overflow,
    decreases parts.len() - i,
{
    if i < 0 || i >= parts.len() {
    } else if parts[i] == "multipv"@ {
        if i + 1 < parts.len() {
            lemma_scan_keeps_overflow(parts, i + 2, InfoScan {
                multipv: match parse_u8_spec(parts[i + 1]) {
                    Some(v) => v as u8,
                    None => 1,
                },
                ..st
            });
        }
    } else if parts[i] == "score"@ {
        if i + 2 < parts.len() {
            lemma_scan_keeps_overflow(parts, i + 3, read_score(st, parts[i + 1], parts[i + 2]));
        } else {
            lemma_scan_keeps_overflow(parts, i + 1, st);
        }
    } else if parts[i] == "pv"@ {
    } else {
        lemma_scan_keeps_overflow(parts, i + 1, st);
    }
}

/// Does the text equal the literal?
fn is_word(s: &String, w: &str) -> (r: bool)
    ensures
        r == (s@ == w@),
{
    str_eq(s.as_str(), w)
}

/// Does any mate score these words report overflow an `i32` once turned into centipawns?
pub fn info_parts_overflow(parts: &Vec<String>) -> (r: bool)
    ensures
        r == info_overflows(texts(parts@)),
{
    let ghost words = texts(parts@);
    let n = parts.len();
    let mut i: usize = 0;
    let mut overflow = false;
    let mut multipv: u8 = 1;
    let mut eval_cp: Option<i32> = None;
    let mut eval_type = EvalType::Centipawn;
    let mut mate_val: Option<i32> = None;
    while i < n
        invariant
            n == parts@.len(),
            words == texts(parts@),
            words.len() == n,
            scan(words, i as int, InfoScan { multipv, eval_cp, eval_type, mate_val, pv_start: None, overflow })
                == scan(words, 0, scan_start()) || overflow && scan(words, 0, scan_start()).overflow,
            overflow ==> scan(words, 0, scan_start()).overflow,
        decreases n - i,
    {
        let ghost st = InfoScan { multipv, eval_cp, eval_type, mate_val, pv_start: None, overflow };
        assert(words[i as int] == parts@[i as int]@);
        if overflow {
            return true;
        }
        if is_word(&parts[i], "multipv") {
            if i + 1 < n {
                assert(words[i + 1] == parts@[i + 1]@);
                multipv = match parse_u8(parts[i + 1].as_str()) {
                    Some(v) => v,
                    None => 1,
                };
            }
            if n - i <= 2 {
                i = n;
            } else {
                i = i + 2;
            }
        } else if is_word(&parts[i], "score") {
            if n - i > 2 {
                assert(words[i + 1] == parts@[i + 1]@);
                assert(words[i + 2] == parts@[i + 2]@);
                if is_word(&parts[i + 1], "cp") {
                    eval_cp = parse_i32(parts[i + 2].as_str());
                    eval_type = EvalType::Centipawn;
                } else if is_word(&parts[i + 1], "mate") {
                    proof {
                        reveal_strlit("cp");
                        reveal_strlit("mate");
                    }
                    mate_val = parse_i32(parts[i + 2].as_str());
                    eval_type = EvalType::Mate;
                    match mate_val {
                        Some(m) => {
                            if m > 0 {
                                if m > i32::MAX - 100000 {
                                    overflow = true;
                                } else {
                                    eval_cp = Some(100000 + m);
                                }
                            } else {
                                if m < i32::MIN + 100000 {
                                    overflow = true;
                                } else {
                                    eval_cp = Some(-100000 + m);
                                }
                            }
                            if overflow {
                                proof {
                                    lemma_scan_keeps_overflow(
                                        words,
                                        i + 3,
                                        read_score(st, words[i + 1], words[i + 2]),
                                    );
                                }
                                return true;
                            }
                        },
                        None => {},
                    }
                }
                i = i + 3;
            } else {
                i = i + 1;
            }
        } else if is_word(&parts[i], "pv") {
            return false;
        } else {
            i = i + 1;
        }
    }
    overflow
}

/// Reads the words of an `info` line into a variation.
pub fn parse_info_parts(parts: &Vec<String>) -> (r: Option<PVLine>)
    requires
        !info_overflows(texts(parts@)),
    ensures
        match info_from_parts(texts(parts@)) {
            Some(v) => r is Some && r->0@ == v,
            None => r is None,
        },
{
    let ghost words = texts(parts@);
    let n = parts.len();
    let mut i: usize = 0;
    let mut multipv: u8 = 1;
    let mut eval_cp: Option<i32> = None;
    let mut eval_type = EvalType::Centipawn;
    let mut mate_val: Option<i32> = None;
    let mut pv_start: Option<usize> = None;
    while i < n
        invariant_except_break
            pv_start is None,
            scan(words, i as int, InfoScan { multipv, eval_cp, eval_type, mate_val, pv_start: None, overflow: false })
                == scan(words, 0, scan_start()),
        invariant
            n == parts@.len(),
            words == texts(parts@),
            words.len() == n,
            !scan(words, 0, scan_start()).overflow,
        ensures
            scan(words, 0, scan_start()) == (InfoScan {
                multipv,
                eval_cp,
                eval_type,
                mate_val,
                pv_start: match pv_start {
                    Some(s) => Some(s as int),
                    None => None,
                },
                overflow: false,
            }),
            pv_start matches Some(s) ==> s <= n,
        decreases n - i,
    {
        let ghost st = InfoScan { multipv, eval_cp, eval_type, mate_val, pv_start: None, overflow: false };
        assert(words[i as int] == parts@[i as int]@);
        if is_word(&parts[i], "multipv") {
            if i + 1 < n {
                assert(words[i + 1] == parts@[i + 1]@);
                multipv = match parse_u8(parts[i + 1].as_str()) {
                    Some(v) => v,
                    None => 1,
                };
            }
            if n - i <= 2 {
                i = n;
            } else {
                i = i + 2;
            }
        } else if is_word(&parts[i], "score") {
            if n - i > 2 {
                assert(words[i + 1] == parts@[i + 1]@);
                assert(words[i + 2] == parts@[i + 2]@);
                if is_word(&parts[i + 1], "cp") {
                    eval_cp = parse_i32(parts[i + 2].as_str());
                    eval_type = EvalType::Centipawn;
                } else if is_word(&parts[i + 1], "mate") {
                    proof {
                        reveal_strlit("cp");
                        reveal_strlit("mate");
                    }
                    mate_val = parse_i32(parts[i + 2].as_str());
                    eval_type = EvalType::Mate;
                    match mate_val {
                        Some(m) => {
                            let ghost next = read_score(st, words[i + 1], words[i + 2]);
                            proof {
                                if !fits_i32(mate_cp(m as int)) {
                                    lemma_scan_keeps_overflow(words, i + 3, next);
                                }
                            }
                            if m > 0 {
                                eval_cp = Some(100000 + m);
                            } else {
                                eval_cp = Some(-100000 + m);
                            }
                        },
                        None => {},
                    }
                }
                i = i + 3;
            } else {
                i = i + 1;
            }
        } else if is_word(&parts[i], "pv") {
            pv_start = Some(i + 1);
            break;
        } else {
            i = i + 1;
        }
    }
    match pv_start {
        Some(s) => {
            if s < n {
                let mut pv: Vec<String> = Vec::new();
                let mut j: usize = s;
                while j < n
                    invariant
                        s <= j <= n,
                        n == parts@.len(),
                        words == texts(parts@),
                        texts(pv@) == words.subrange(s as int, j as int),
                        pv@.len() == j - s,
                    decreases n - j,
                {
                    let ghost before = pv@;
                    pv.push(parts[j].clone());
                    assert(pv@ == before.push(parts@[j as int]));
                    assert forall|k: int| 0 <= k < pv@.len() implies #[trigger] pv@[k]@ == words[s + k] by {
                        if k < before.len() {
                            assert(texts(before)[k] == words.subrange(s as int, j as int)[k]);
                        }
                    }
                    assert(texts(pv@) =~= words.subrange(s as int, j + 1));
                    j = j + 1;
                }
                let first_move = parts[s].clone();
                Some(PVLine { multipv, eval_cp, eval_type, mate_val, pv, first_move })
            } else {
                None
            }
        },
        None => None,
    }
}

/// Reads one line of engine output: a variation when it is an `info` line whose
/// words end in `pv` and at least one move. A line whose mate score does not fit
/// in an `i32` once turned into centipawns is refused too.
pub fn parse_info_line(line: &str) -> (r: Option<PVLine>)
    ensures
        !has_prefix(line@, "info "@) ==> r is None,
        has_prefix(line@, "info "@) && info_overflows(std_split_whitespace(line@)) ==> r is None,
        has_prefix(line@, "info "@) && !info_overflows(std_split_whitespace(line@)) ==> match info_line(
            line@,
        ) {
            Some(v) => r is Some && r->0@ == v,
            None => r is None,
        },
{
    if !starts_with(line, "info ") {
        return None;
    }
    let parts = split_whitespace(line);
    assert(texts(parts@) =~= std_split_whitespace(line@));
    if info_parts_overflow(&parts) {
        return None;
    }
    parse_info_parts(&parts)
}

/// The variation an engine output line yields, as `parse_info_line` reads it.
pub open spec fn line_pv(line: Seq<char>) -> Option<PVView> {
    if has_prefix(line, "info "@) && !info_overflows(std_split_whitespace(line)) {
        info_line(line)
    } else {
        None
    }
}

/// The variations the first `n` lines yield, in order.
pub open spec fn parsed_pvs(lines: Seq<Seq<char>>, n: int) -> Seq<PVView>
    decreases n,
{
    if n <= 0 || n > lines.len() {
        Seq::empty()
    } else {
        match line_pv(lines[n - 1]) {
            Some(v) => parsed_pvs(lines, n - 1).push(v),
            None => parsed_pvs(lines, n - 1),
        }
    }
}

/// The last of the variations numbered `k`.
pub open spec fn last_with(ps: Seq<PVView>, k: u8) -> Option<PVView>
    decreases ps.len(),
{
    if ps.len() == 0 {
        None
    } else if ps.last().multipv == k {
        Some(ps.last())
    } else {
        last_with(ps.drop_last(), k)
    }
}

/// `r` holds, for each number that some variation of `ps` carries, the last
/// variation with that number, ordered by number.
pub open spec fn aggregates(r: Seq<PVView>, ps: Seq<PVView>) -> bool {
    &&& forall|a: int, b: int| 0 <= a < b < r.len() ==> r[a].multipv < r[b].multipv
    &&& forall|j: int| 0 <= j < r.len() ==> last_with(ps, #[trigger] r[j].multipv) == Some(r[j])
    &&& forall|k: u8| #[trigger] last_with(ps, k) is Some ==> exists|j: int| 0 <= j < r.len() && r[j].multipv == k
}

/// The views of a vector of variations.
pub open spec fn pv_views(v: Seq<PVLine>) -> Seq<PVView> {
    v.map_values(|p: PVLine| p@)
}

/// Reads the output of one search: every `info` line with moves gives a variation,
/// a later line replaces an earlier one with the same number, and the result is
/// ordered by number.
#[verifier::rlimit(40)]
pub fn collect_pv_lines(lines: &Vec<String>) -> (r: Vec<PVLine>)
    ensures
        aggregates(pv_views(r@), parsed_pvs(texts(lines@), lines@.len() as int)),
{
    let ghost ls = texts(lines@);
    let mut acc: Vec<PVLine> = Vec::new();
    let mut i: usize = 0;
    while i < lines.len()
        invariant
            i <= lines@.len(),
            ls == texts(lines@),
            ls.len() == lines@.len(),
            aggregates(pv_views(acc@), parsed_pvs(ls, i as int)),
        decreases lines@.len() - i,
    {
        let ghost ps = parsed_pvs(ls, i as int);
        assert(ls[i as int] == lines@[i as int]@);
        match parse_info_line(lines[i].as_str()) {
            Some(p) => {
                let ghost ps2 = ps.push(p@);
                assert(parsed_pvs(ls, i + 1) == ps2);
                let k = p.multipv;
                let ghost old_views = pv_views(acc@);
                assert(ps2.drop_last() =~= ps);
                let mut pos: usize = 0;
                while pos < acc.len() && acc[pos].multipv < k
                    invariant
                        pos <= acc@.len(),
                        old_views == pv_views(acc@),
                        forall|j: int| 0 <= j < pos ==> (#[trigger] acc@[j]).multipv < k,
                    decreases acc@.len() - pos,
                {
                    pos = pos + 1;
                }
                proof {
                    assert forall|j: int| 0 <= j < old_views.len() implies #[trigger] old_views[j]
                        == acc@[j]@ by {}
                }
                if pos < acc.len() && acc[pos].multipv == k {
                    acc.remove(pos);
                    acc.insert(pos, p);
                    proof {
                        let nv = pv_views(acc@);
                        assert(nv =~= old_views.update(pos as int, ps2.last()));
                        assert forall|j: int| 0 <= j < nv.len() implies last_with(ps2, #[trigger] nv[j].multipv)
                            == Some(nv[j]) by {
                            if j != pos {
                                assert(nv[j] == old_views[j]);
                                if j < pos {
                                    assert(old_views[j].multipv < old_views[pos as int].multipv);
                                } else {
                                    assert(old_views[pos as int].multipv < old_views[j].multipv);
                                }
                            }
                        }
                        assert forall|kk: u8| #[trigger] last_with(ps2, kk) is Some implies exists|j: int|
                            0 <= j < nv.len() && nv[j].multipv == kk by {
                            if kk == k {
                                assert(nv[pos as int].multipv == kk);
                            } else {
                                assert(last_with(ps, kk) is Some);
                                let j = choose|j: int| 0 <= j < old_views.len() && old_views[j].multipv == kk;
                                assert(nv[j] == old_views[j]);
                            }
                        }
                    }
                } else {
                    acc.insert(pos, p);
                    proof {
                        let nv = pv_views(acc@);
                        assert(nv =~= old_views.insert(pos as int, ps2.last()));
                        assert forall|a: int, b: int| 0 <= a < b < nv.len() implies nv[a].multipv < nv[b].multipv by {
                            if b < pos {
                                assert(nv[a] == old_views[a] && nv[b] == old_views[b]);
                            } else if b == pos {
                                assert(nv[a] == old_views[a]);
                            } else if a == pos {
                                assert(nv[b] == old_views[b - 1]);
                                assert(old_views[pos as int].multipv >= k);
                                if b - 1 > pos {
                                    assert(old_views[pos as int].multipv < old_views[b - 1].multipv);
                                }
                            } else if a < pos {
                                assert(nv[a] == old_views[a] && nv[b] == old_views[b - 1]);
                            } else {
                                assert(nv[a] == old_views[a - 1] && nv[b] == old_views[b - 1]);
                            }
                        }
                        assert forall|j: int| 0 <= j < nv.len() implies last_with(ps2, #[trigger] nv[j].multipv)
                            == Some(nv[j]) by {
                            if j < pos {
                                assert(nv[j] == old_views[j]);
                            } else if j > pos {
                                assert(nv[j] == old_views[j - 1]);
                                assert(old_views[pos as int].multipv >= k);
                                if j - 1 > pos {
                                    assert(old_views[pos as int].multipv < old_views[j - 1].multipv);
                                }
                            }
                        }
                        assert forall|kk: u8| #[trigger] last_with(ps2, kk) is Some implies exists|j: int|
                            0 <= j < nv.len() && nv[j].multipv == kk by {
                            if kk == k {
                                assert(nv[pos as int].multipv == kk);
                            } else {
                                assert(last_with(ps, kk) is Some);
                                let j = choose|j: int| 0 <= j < old_views.len() && old_views[j].multipv == kk;
                                if j < pos {
                                    assert(nv[j] == old_views[j]);
                                } else {
                                    assert(nv[j + 1] == old_views[j]);
                                }
                            }
                        }
                    }
                }
            },
            None => {
                assert(parsed_pvs(ls, i + 1) == ps);
            },
        }
        i = i + 1;
    }
    acc
}

/// The `go` command for a search: `go`, then ` depth <d>` and ` movetime <t>` for
/// the limits that are set.
pub open spec fn go_text(depth: Option<u8>, movetime_ms: Option<u32>) -> Seq<char> {
    "go"@ + match depth {
        Some(d) => " depth "@ + decimal(d as nat),
        None => Seq::empty(),
    } + match movetime_ms {
        Some(t) => " movetime "@ + decimal(t as nat),
        None => Seq::empty(),
    }
}

/// The `go` command for a search.
pub fn go_command(options: &SearchOptions) -> (s: String)
    ensures
        s@ == go_text(options.depth, options.movetime_ms),
{
    let mut s = String::from_str("go");
    match options.depth {
        Some(d) => {
            append_str(&mut s, " depth ");
            let n = decimal_string(d as u64);
            append_str(&mut s, n.as_str());
        },
        None => {},
    }
    match options.movetime_ms {
        Some(t) => {
            append_str(&mut s, " movetime ");
            let n = decimal_string(t as u64);
            append_str(&mut s, n.as_str());
        },
        None => {},
    }
    proof {
        let a = match options.depth {
            Some(d) => " depth "@ + decimal(d as nat),
            None => Seq::<char>::empty(),
        };
        let b = match options.movetime_ms {
            Some(t) => " movetime "@ + decimal(t as nat),
            None => Seq::<char>::empty(),
        };
        assert(s@ =~= "go"@ + a + b);
    }
    s
}

/// The command that asks for `n` variations.
pub fn multipv_command(n: u8) -> (s: String)
    ensures
        s@ == "setoption name MultiPV value "@ + decimal(n as nat),
{
    let mut s = String::from_str("setoption name MultiPV value ");
    let d = decimal_string(n as u64);
    append_str(&mut s, d.as_str());
    s
}

/// The command that sets the engine's strength.
pub fn skill_command(level: u8) -> (s: String)
    ensures
        s@ == "setoption name Skill Level value "@ + decimal(level as nat),
{
    let mut s = String::from_str("setoption name Skill Level value ");
    let d = decimal_string(level as u64);
    append_str(&mut s, d.as_str());
    s
}

/// The command that sets up a position.
pub fn position_command(fen: &str) -> (s: String)
    ensures
        s@ == "position fen "@ + fen@,
{
    let mut s = String::from_str("position fen ");
    append_str(&mut s, fen);
    s
}

/// How long to wait for the end of a search: the move time (two seconds when
/// none is set) and half a second more.
pub fn search_timeout_ms(options: &SearchOptions) -> (t: u32)
    requires
        options.movetime_ms matches Some(m) ==> m <= u32::MAX - 500,
    ensures
        t == match options.movetime_ms {
            Some(m) => m + 500,
            None => 2500,
        },
{
    match options.movetime_ms {
        Some(m) => m + 500,
        None => 2500,
    }
}


/// A variation read from an `info` line has at least one move, and its first
/// move is the first of its moves.
pub proof fn lemma_info_first_move(parts: Seq<Seq<char>>)
    ensures
        info_from_parts(parts) matches Some(v) ==> v.pv.len() >= 1 && v.first_move == v.pv[0],
{
}

/// The result of reading a search holds each variation number once, in
/// increasing order.
pub proof fn lemma_aggregate_numbers_unique(r: Seq<PVView>, ps: Seq<PVView>)
    requires
        aggregates(r, ps),
    ensures
        forall|a: int, b: int| 0 <= a < r.len() && 0 <= b < r.len() && a != b ==> r[a].multipv != r[b].multipv,
{
    assert forall|a: int, b: int| 0 <= a < r.len() && 0 <= b < r.len() && a != b implies r[a].multipv
        != r[b].multipv by {
        if a < b {
            assert(r[a].multipv < r[b].multipv);
        } else {
            assert(r[b].multipv < r[a].multipv);
        }
    }
}


/// Has the engine answered `isready` (some line contains `readyok`)?
pub fn engine_is_ready(lines: &Vec<String>) -> (r: bool)
    ensures
        r == exists|i: int| 0 <= i < lines@.len() && occurs_in(#[trigger] lines@[i]@, "readyok"@),
{
    let mut i: usize = 0;
    while i < lines.len()
        invariant
            i <= lines@.len(),
            forall|k: int| 0 <= k < i ==> !occurs_in(#[trigger] lines@[k]@, "readyok"@),
        decreases lines@.len() - i,
    {
        if contains(lines[i].as_str(), "readyok") {
            return true;
        }
        i = i + 1;
    }
    false
}

/// Has the search ended (some line starts with `bestmove`)?
pub fn search_finished(lines: &Vec<String>) -> (r: bool)
    ensures
        r == exists|i: int| 0 <= i < lines@.len() && has_prefix(#[trigger] lines@[i]@, "bestmove"@),
{
    let mut i: usize = 0;
    while i < lines.len()
        invariant
            i <= lines@.len(),
            forall|k: int| 0 <= k < i ==> !has_prefix(#[trigger] lines@[k]@, "bestmove"@),
        decreases lines@.len() - i,
    {
        if starts_with(lines[i].as_str(), "bestmove") {
            return true;
        }
        i = i + 1;
    }
    false
}

/// The first move of the first variation, the engine's best move.
pub fn best_move_of(pvs: &Vec<PVLine>) -> (r: Option<String>)
    ensures
        pvs@.len() == 0 ==> r is None,
        pvs@.len() > 0 ==> (r matches Some(m) && m@ == pvs@[0].first_move@),
{
    if pvs.len() == 0 {
        None
    } else {
        Some(pvs[0].first_move.clone())
    }
}

} // verus!
