//! The decisions of a game: what each socket event or browser message changes,
//! when to think about a move, which move to play and how to send it.
//!
//! The program around the library performs the outside work (asking the engine,
//! waiting, sending) and hands back what came of it; every decision is made here.
use vstd::prelude::*;
use crate::board::{
    chess_legal_moves, chess_piece_on, fen_after, legal_moves, parse_uci, parse_uci_spec, piece_of_index,
    piece_on, uci_text, well_formed_move, PieceKind, UciMove,
};
use crate::bridge::protocol::{BrowserMessage, GameStateMessage};
use crate::chess_logic::{
    captures, count_occupied, fresh_game, occupied, uci_breaks_board, GameState,
};
use crate::config::Config;
use crate::engine::stockfish::PVView;
use crate::engine::{PVLine, SearchOptions};
use crate::lichess::events::{LichessEvent, MoveRequest};
use crate::lichess::LichessClient;
use crate::move_selector::{
    chose, counters_have_room, losses_fit, moves_playable, selection_rolls_in_range, varied_choice,
    views, Choice, MoveSelector, SelectionRolls,
};
use crate::text::{push_char, str_eq};
use crate::timing::{
    average_lag, human_config_usable, human_delay, lag_claim, lag_sum, panic_lag_claim,
    rolls_in_range, HumanRolls, TimingEngine,
};

verus! {

// ----------------------------------------------------------------------------
// Standard algebraic notation
// ----------------------------------------------------------------------------

/// The SAN letter of a piece (a space for a pawn or a king, which never carry one
/// as a promotion).
pub open spec fn san_letter(p: PieceKind) -> char {
    match p {
        PieceKind::Knight => 'N',
        PieceKind::Bishop => 'B',
        PieceKind::Rook => 'R',
        PieceKind::Queen => 'Q',
        PieceKind::King => 'K',
        PieceKind::Pawn => ' ',
    }
}

/// The SAN letter of a promotion piece.
pub open spec fn promotion_letter(p: PieceKind) -> char {
    match p {
        PieceKind::Knight => 'N',
        PieceKind::Bishop => 'B',
        PieceKind::Rook => 'R',
        PieceKind::Queen => 'Q',
        _ => ' ',
    }
}

/// The file letter of a square.
pub open spec fn file_letter(square: int) -> char {
    ((square % 8) + ('a' as int)) as char
}

/// The rank digit of a square.
pub open spec fn rank_digit(square: int) -> char {
    ((square / 8) + ('1' as int)) as char
}

/// The SAN of a move, from the piece on its source square and whether its
/// destination is occupied: castling is `O-O` or `O-O-O`; otherwise the piece
/// letter (for a pawn capture, the source file), `x` for a capture, the destination
/// and `=` with the promotion piece. Checks are not marked.
pub open spec fn san_text(moved: Option<PieceKind>, dest_occupied: bool, m: UciMove) -> Seq<char> {
    let src = m.source as int;
    let dst = m.dest as int;
    let is_capture = dest_occupied || (moved == Some(PieceKind::Pawn) && src % 8 != dst % 8);
    if moved == Some(PieceKind::King) && dst - src == 2 {
        "O-O"@
    } else if moved == Some(PieceKind::King) && dst - src == -2 {
        "O-O-O"@
    } else {
        let prefix: Seq<char> = if moved != Some(PieceKind::Pawn) {
            match moved {
                Some(p) => seq![san_letter(p)],
                None => Seq::empty(),
            }
        } else if is_capture {
            seq![file_letter(src)]
        } else {
            Seq::empty()
        };
        let body = prefix + (if is_capture { seq!['x'] } else { Seq::empty() }) + seq![
            file_letter(dst),
            rank_digit(dst),
        ];
        match m.promotion {
            Some(p) => body + seq!['=', promotion_letter(p)],
            None => body,
        }
    }
}

/// The piece on a square of a position.
pub open spec fn piece_at(fen: Seq<char>, square: int) -> Option<PieceKind> {
    match chess_piece_on(fen, square) {
        Some(i) => Some(piece_of_index(i)),
        None => None,
    }
}

/// The SAN of a move on a position.
pub open spec fn san_on(fen: Seq<char>, m: UciMove) -> Seq<char> {
    san_text(piece_at(fen, m.source as int), occupied(fen, m.dest as int), m)
}

/// The SAN of the move written `t` in UCI notation (empty if it is not a move).
pub open spec fn san_of_uci(fen: Seq<char>, t: Seq<char>) -> Seq<char> {
    match parse_uci_spec(t) {
        Some(m) => san_on(fen, m),
        None => Seq::empty(),
    }
}

/// The SAN without a trailing check (`+`) or mate (`#`) sign.
pub open spec fn strip_check(san: Seq<char>) -> Seq<char> {
    if san.len() > 0 && (san.last() == '+' || san.last() == '#') {
        san.drop_last()
    } else {
        san
    }
}

/// `base` with `extra` inserted after its first character.
pub open spec fn insert_after_first(base: Seq<char>, extra: Seq<char>) -> Seq<char> {
    seq![base[0]] + extra + base.drop_first()
}

/// Is `san` a way of writing the move `t` (UCI notation) in SAN: its SAN, or, for
/// a piece other than a pawn, its SAN with the source file, rank or square added
/// after the piece letter; either may end in a check or mate sign.
pub open spec fn san_names(fen: Seq<char>, t: Seq<char>, san: Seq<char>) -> bool {
    let plain = strip_check(san);
    let base = san_of_uci(fen, t);
    ||| plain == base
    ||| match parse_uci_spec(t) {
        Some(m) => {
            &&& piece_at(fen, m.source as int) matches Some(p)
            &&& p != PieceKind::Pawn
            &&& base.len() > 0
            &&& base[0] != 'O'
            &&& (plain == insert_after_first(base, seq![file_letter(m.source as int)]) || plain
                == insert_after_first(base, seq![rank_digit(m.source as int)]) || plain
                == insert_after_first(base, seq![file_letter(m.source as int), rank_digit(m.source as int)]))
        },
        None => false,
    }
}

/// The first of the moves from `i` on that `san` names.
pub open spec fn first_san_match(fen: Seq<char>, moves: Seq<Seq<char>>, san: Seq<char>, i: int) -> Option<
    Seq<char>,
>
    decreases moves.len() - i,
{
    if i < 0 || i >= moves.len() {
        None
    } else if san_names(fen, moves[i], san) {
        Some(moves[i])
    } else {
        first_san_match(fen, moves, san, i + 1)
    }
}

/// The legal move of the position, in UCI notation, whose SAN is `san`.
pub open spec fn san_to_uci_spec(fen: Seq<char>, san: Seq<char>) -> Option<Seq<char>> {
    first_san_match(fen, chess_legal_moves(fen), san, 0)
}

/// The SAN letter of a piece.
fn san_letter_of(p: PieceKind) -> (c: char)
    ensures
        c == san_letter(p),
{
    match p {
        PieceKind::Knight => 'N',
        PieceKind::Bishop => 'B',
        PieceKind::Rook => 'R',
        PieceKind::Queen => 'Q',
        PieceKind::King => 'K',
        PieceKind::Pawn => ' ',
    }
}

/// The SAN letter of a promotion piece.
fn promotion_letter_of(p: PieceKind) -> (c: char)
    ensures
        c == promotion_letter(p),
{
    match p {
        PieceKind::Knight => 'N',
        PieceKind::Bishop => 'B',
        PieceKind::Rook => 'R',
        PieceKind::Queen => 'Q',
        _ => ' ',
    }
}

/// The file letter of a square below 64.
fn file_letter_of(square: u8) -> (c: char)
    requires
        square < 64,
    ensures
        c == file_letter(square as int),
{
    crate::board::file_of(square)
}

/// The rank digit of a square below 64.
fn rank_digit_of(square: u8) -> (c: char)
    requires
        square < 64,
    ensures
        c == rank_digit(square as int),
{
    crate::board::rank_of(square)
}

/// The SAN of a move, from the piece on its source square and whether its
/// destination is occupied.
pub fn san_for(moved: Option<PieceKind>, dest_occupied: bool, m: UciMove) -> (s: String)
    requires
        m.source < 64,
        m.dest < 64,
    ensures
        s@ == san_text(moved, dest_occupied, m),
{
    let src = m.source;
    let dst = m.dest;
    let is_pawn = match moved {
        Some(PieceKind::Pawn) => true,
        _ => false,
    };
    let is_king = match moved {
        Some(PieceKind::King) => true,
        _ => false,
    };
    let is_capture = dest_occupied || (is_pawn && src % 8 != dst % 8);
    if is_king && dst as i16 - src as i16 == 2 {
        return String::from_str("O-O");
    } else if is_king && dst as i16 - src as i16 == -2 {
        return String::from_str("O-O-O");
    }
    let mut s = String::new();
    let ghost prefix: Seq<char>;
    if !is_pawn {
        match moved {
            Some(p) => {
                push_char(&mut s, san_letter_of(p));
            },
            None => {},
        }
    } else if is_capture {
        push_char(&mut s, file_letter_of(src));
    }
    proof {
        prefix = s@;
    }
    if is_capture {
        push_char(&mut s, 'x');
    }
    push_char(&mut s, file_letter_of(dst));
    push_char(&mut s, rank_digit_of(dst));
    let ghost body = s@;
    match m.promotion {
        Some(p) => {
            push_char(&mut s, '=');
            push_char(&mut s, promotion_letter_of(p));
        },
        None => {},
    }
    proof {
        let expect_prefix: Seq<char> = if moved != Some(PieceKind::Pawn) {
            match moved {
                Some(p) => seq![san_letter(p)],
                None => Seq::empty(),
            }
        } else if is_capture {
            seq![file_letter(src as int)]
        } else {
            Seq::empty()
        };
        assert(prefix =~= expect_prefix);
        let expect_body = expect_prefix + (if is_capture { seq!['x'] } else { Seq::empty() })
            + seq![file_letter(dst as int), rank_digit(dst as int)];
        assert(body =~= expect_body);
        assert(s@ =~= san_text(moved, dest_occupied, m));
    }
    s
}

/// The SAN of a move on a position.
pub fn move_to_san(fen: &str, m: UciMove) -> (s: String)
    requires
        m.source < 64,
        m.dest < 64,
    ensures
        s@ == san_on(fen@, m),
{
    let moved = match piece_on(fen, m.source) {
        Some(i) => Some(PieceKind::from_index(i)),
        None => None,
    };
    let dest_occupied = piece_on(fen, m.dest).is_some();
    san_for(moved, dest_occupied, m)
}

/// The SAN without a trailing check or mate sign.
fn strip_check_sign(san: &str) -> (r: String)
    ensures
        r@ == strip_check(san@),
{
    let c = crate::text::chars_of(san);
    let n = c.len();
    let keep = if n > 0 && (c[n - 1] == '+' || c[n - 1] == '#') { n - 1 } else { n };
    let mut r = String::new();
    let mut i: usize = 0;
    while i < keep
        invariant
            c@ == san@,
            keep <= c@.len(),
            i <= keep,
            r@ == c@.subrange(0, i as int),
        decreases keep - i,
    {
        push_char(&mut r, c[i]);
        proof {
            assert(r@ =~= c@.subrange(0, i + 1));
        }
        i = i + 1;
    }
    assert(r@ =~= strip_check(san@));
    r
}

/// `base` with `extra` inserted after its first character.
fn with_inserted(base: &str, extra: &str) -> (r: String)
    requires
        base@.len() > 0,
    ensures
        r@ == insert_after_first(base@, extra@),
{
    let c = crate::text::chars_of(base);
    let mut r = String::new();
    push_char(&mut r, c[0]);
    crate::text::append_str(&mut r, extra);
    let mut i: usize = 1;
    while i < c.len()
        invariant
            c@ == base@,
            1 <= i <= c@.len(),
            r@ == seq![c@[0]] + extra@ + c@.subrange(1, i as int),
        decreases c@.len() - i,
    {
        push_char(&mut r, c[i]);
        proof {
            assert(r@ =~= seq![c@[0]] + extra@ + c@.subrange(1, i + 1));
        }
        i = i + 1;
    }
    assert(c@.subrange(1, c@.len() as int) =~= base@.drop_first());
    r
}

/// Does `plain` (a SAN without check sign) name the move `m`, whose SAN is `base`?
fn names_move(fen: &str, m: UciMove, base: &str, plain: &str) -> (r: bool)
    requires
        m.source < 64,
        m.dest < 64,
        base@ == san_on(fen@, m),
    ensures
        r == (plain@ == base@ || {
            &&& piece_at(fen@, m.source as int) matches Some(p)
            &&& p != PieceKind::Pawn
            &&& base@.len() > 0
            &&& base@[0] != 'O'
            &&& (plain@ == insert_after_first(base@, seq![file_letter(m.source as int)]) || plain@
                == insert_after_first(base@, seq![rank_digit(m.source as int)]) || plain@
                == insert_after_first(base@, seq![file_letter(m.source as int), rank_digit(m.source as int)]))
        }),
{
    if str_eq(plain, base) {
        return true;
    }
    let is_piece = match piece_on(fen, m.source) {
        Some(i) => i != 0,
        None => false,
    };
    if !is_piece {
        proof {
            assert(piece_at(fen@, m.source as int) is None || piece_at(fen@, m.source as int) == Some(
                PieceKind::Pawn,
            ));
        }
        return false;
    }
    let b = crate::text::chars_of(base);
    if b.len() == 0 || b[0] == 'O' {
        return false;
    }
    let mut f = String::new();
    push_char(&mut f, file_letter_of(m.source));
    let mut k = String::new();
    push_char(&mut k, rank_digit_of(m.source));
    let mut sq = String::new();
    push_char(&mut sq, file_letter_of(m.source));
    push_char(&mut sq, rank_digit_of(m.source));
    proof {
        assert(f@ =~= seq![file_letter(m.source as int)]);
        assert(k@ =~= seq![rank_digit(m.source as int)]);
        assert(sq@ =~= seq![file_letter(m.source as int), rank_digit(m.source as int)]);
    }
    let v1 = with_inserted(base, f.as_str());
    let v2 = with_inserted(base, k.as_str());
    let v3 = with_inserted(base, sq.as_str());
    str_eq(plain, v1.as_str()) || str_eq(plain, v2.as_str()) || str_eq(plain, v3.as_str())
}

/// The legal move of the position, in UCI notation, that `san` names.
#[verifier::loop_isolation(false)]
pub fn san_to_uci(fen: &str, san: &str) -> (r: Option<String>)
    ensures
        match san_to_uci_spec(fen@, san@) {
            Some(t) => r matches Some(u) && u@ == t,
            None => r is None,
        },
{
    let moves = legal_moves(fen);
    let ghost ms = chess_legal_moves(fen@);
    let plain = strip_check_sign(san);
    let mut i: usize = 0;
    while i < moves.len()
        invariant
            i <= moves@.len(),
            moves@.len() == ms.len(),
            forall|k: int| 0 <= k < moves@.len() ==> #[trigger] moves@[k]@ == ms[k],
            first_san_match(fen@, ms, san@, i as int) == san_to_uci_spec(fen@, san@),
        decreases moves@.len() - i,
    {
        let t = &moves[i];
        let ghost mv = choose|m: UciMove| well_formed_move(m) && moves@[i as int]@ == uci_text(m);
        proof {
            crate::board::lemma_uci_round_trip(mv);
        }
        match parse_uci(t.as_str()) {
            Some(m) => {
                let s = move_to_san(fen, m);
                if names_move(fen, m, s.as_str(), plain.as_str()) {
                    return Some(t.clone());
                }
            },
            None => {},
        }
        i = i + 1;
    }
    None
}

// ----------------------------------------------------------------------------
// Rebuilding a position from the browser's move list
// ----------------------------------------------------------------------------

/// The part of a game that replaying moves changes.
pub struct Replay {
    pub board: Seq<char>,
    pub history: Seq<UciMove>,
    pub ply: int,
}

/// Plays the move written `t` (UCI notation) if it can be played; a move the
/// `chess` crate cannot take is skipped.
pub open spec fn replay_apply(r: Replay, t: Seq<char>) -> Replay {
    if uci_breaks_board(r.board, t) {
        r
    } else {
        match parse_uci_spec(t) {
            Some(m) => match fen_after(r.board, m) {
                Some(f) => Replay { board: f, history: r.history.push(m), ply: r.ply + 1 },
                None => r,
            },
            None => r,
        }
    }
}

/// One move of the browser's list: a legal move in UCI notation is played; else
/// the legal move with that SAN is played; else the move is skipped.
pub open spec fn replay_step(r: Replay, t: Seq<char>) -> Replay {
    match parse_uci_spec(t) {
        Some(m) if chess_legal_moves(r.board).contains(uci_text(m)) => replay_apply(r, t),
        _ => match san_to_uci_spec(r.board, t) {
            Some(u) => replay_apply(r, u),
            None => r,
        },
    }
}

/// The first `n` moves of the list, replayed from `r`.
pub open spec fn replay(r: Replay, moves: Seq<Seq<char>>, n: int) -> Replay
    decreases n,
{
    if n <= 0 || n > moves.len() {
        r
    } else {
        replay_step(replay(r, moves, n - 1), moves[n - 1])
    }
}

/// The replay state of a new game.
pub open spec fn fresh_replay() -> Replay {
    Replay { board: crate::board::initial_fen(), history: Seq::empty(), ply: 0 }
}

// ----------------------------------------------------------------------------
// The game manager
// ----------------------------------------------------------------------------

/// Everything the decisions of a game read and change.
pub struct GameManager {
    pub state: GameState,
    pub timing_engine: TimingEngine,
    pub move_selector: MoveSelector,
    pub lichess_client: LichessClient,
    pub config: Config,
    /// A turn is being worked on.
    pub is_processing: bool,
    /// Our move, sent and not yet seen back.
    pub pending_move_uci: Option<String>,
    /// Moves go to the browser extension.
    pub bridge_connected: bool,
    /// Moves go to the game socket.
    pub socket_ready: bool,
}

/// What the program should ask the engine for.
pub struct TurnRequest {
    pub fen: String,
    pub options: SearchOptions,
}

/// The move to play and how long to wait first.
pub struct PlannedMove {
    pub uci: String,
    pub pv_index: u8,
    pub delay_ms: u32,
}

/// How to send our move.
pub enum SendPlan {
    /// Through the browser extension.
    Bridge { uci: String },
    /// Through the game socket.
    Socket { request: MoveRequest },
    /// Nowhere: no channel is open.
    NoChannel,
}

/// What a browser message asks the program to do next.
pub struct BridgeOutcome {
    pub start_turn: bool,
    pub accept_rematch: bool,
}

/// The parts of the manager other than the game state are unchanged.
pub open spec fn keeps_all_but_state(a: GameManager, b: GameManager) -> bool {
    &&& a.timing_engine.presets@ == b.timing_engine.presets@
    &&& a.timing_engine.active_preset == b.timing_engine.active_preset
    &&& a.timing_engine.stats == b.timing_engine.stats
    &&& a.timing_engine.lag_history@ == b.timing_engine.lag_history@
    &&& a.timing_engine.vpn_offset == b.timing_engine.vpn_offset
    &&& a.move_selector == b.move_selector
    &&& a.lichess_client.current_ack == b.lichess_client.current_ack
    &&& a.config == b.config
    &&& a.bridge_connected == b.bridge_connected
    &&& a.socket_ready == b.socket_ready
}

/// The settings, the channels, the acknowledged ply and the timing engine apart
/// from its totals are unchanged.
pub open spec fn keeps_channels_and_timing(a: GameManager, b: GameManager) -> bool {
    &&& a.timing_engine.presets@ == b.timing_engine.presets@
    &&& a.timing_engine.active_preset == b.timing_engine.active_preset
    &&& a.timing_engine.lag_history@ == b.timing_engine.lag_history@
    &&& a.timing_engine.vpn_offset == b.timing_engine.vpn_offset
    &&& a.lichess_client == b.lichess_client
    &&& a.config == b.config
    &&& a.bridge_connected == b.bridge_connected
    &&& a.socket_ready == b.socket_ready
}

/// Is it time to play: our turn, in a running game, with no move of ours pending?
pub open spec fn turn_due(g: GameManager) -> bool {
    &&& crate::chess_logic::my_turn(g.state.board@, g.state.my_color)
    &&& !g.state.game_ended
    &&& g.pending_move_uci is None
}

/// How `begin_turn` takes `a` to `b`, answering `r`.
pub open spec fn turn_begun(a: GameManager, b: GameManager, r: Option<TurnRequest>) -> bool {
    &&& b.state == a.state
    &&& b.pending_move_uci == a.pending_move_uci
    &&& keeps_all_but_state(a, b)
    &&& match r {
        Some(t) => {
            &&& !a.is_processing
            &&& turn_due(a)
            &&& b.is_processing
            &&& t.fen@ == a.state.board@
            &&& t.options.depth is None
            &&& t.options.movetime_ms == Some(a.timing_engine.active().engine_ms)
            &&& t.options.multi_pv == 4
        },
        None => {
            &&& a.is_processing ==> b.is_processing
            &&& !a.is_processing ==> !turn_due(a) && !b.is_processing
        },
    }
}

/// How `choose_move` takes `a` to `b` on the variations `pvs`, answering `r`: what
/// it keeps, and the move and delay outside varied and human mode.
pub open spec fn move_chosen(a: GameManager, b: GameManager, pvs: Seq<PVView>, r: Option<PlannedMove>) -> bool {
    &&& b.state == a.state
    &&& b.pending_move_uci == a.pending_move_uci
    &&& b.timing_engine.stats == a.timing_engine.stats
    &&& keeps_channels_and_timing(a, b)
    &&& pvs.len() == 0 ==> r is None && !b.is_processing && b.move_selector == a.move_selector
    &&& pvs.len() > 0 ==> r is Some && b.is_processing == a.is_processing
    &&& (!a.config.varied_mode && r is Some ==> r->0.uci@ == pvs[0].first_move && r->0.pv_index == 0
        && b.move_selector.variety_stats == crate::move_selector::counted(a.move_selector.variety_stats, 0, false)
        && b.move_selector.game_blunder_count == a.move_selector.game_blunder_count)
    &&& (!a.config.human_mode && r is Some ==> r->0.delay_ms == 0)
}

/// How `execute_move` takes `a` to `b` for the move `uci`, answering `plan`.
pub open spec fn move_dispatched(a: GameManager, b: GameManager, uci: Seq<char>, engine_time: u32, plan: SendPlan) -> bool {
    &&& b.state == a.state
    &&& b.move_selector == a.move_selector
    &&& b.config == a.config
    &&& a.bridge_connected ==> (plan matches SendPlan::Bridge { uci: u } && u@ == uci
        && b.is_processing == a.is_processing && b.pending_move_uci == a.pending_move_uci)
    &&& !a.bridge_connected && !a.socket_ready ==> plan is NoChannel && !b.is_processing
        && b.pending_move_uci == a.pending_move_uci
    &&& !a.bridge_connected && a.socket_ready ==> (plan matches SendPlan::Socket { request } && {
        &&& request.t@ == "move"@
        &&& request.d.u@ == uci
        &&& request.d.a == a.lichess_client.current_ack
        &&& request.d.b == 0
        &&& request.d.l == if a.config.panic_mode {
            panic_lag_claim(average_lag(a.timing_engine.lag_history@), a.timing_engine.vpn_offset as int)
        } else {
            lag_claim(average_lag(a.timing_engine.lag_history@), a.timing_engine.vpn_offset as int)
        }
        &&& pending_text(b.pending_move_uci) == Some(uci)
        &&& b.is_processing == a.is_processing
        &&& b.timing_engine.stats.total_moves == a.timing_engine.stats.total_moves + 1
        &&& b.timing_engine.stats.total_time_ms == a.timing_engine.stats.total_time_ms
        &&& b.timing_engine.stats.engine_time_ms == a.timing_engine.stats.engine_time_ms + engine_time
    })
}

/// How `record_sent_move` takes `a` to `b` for the move `uci`.
pub open spec fn move_recorded(a: GameManager, b: GameManager, uci: Seq<char>) -> bool {
    &&& !b.state.last_move_acked
    &&& moved_on(a.state, b.state, uci)
    &&& pending_text(b.pending_move_uci) == Some(uci)
    &&& !b.is_processing
    &&& keeps_all_but_state(a, b)
}

/// The board, move history and ply after the move written `uci` was played on
/// `a` (all unchanged when it is no move or the `chess` crate gives no board).
pub open spec fn moved_on(a: GameState, b: GameState, uci: Seq<char>) -> bool {
    match parse_uci_spec(uci) {
        Some(m) => match fen_after(a.board@, m) {
            Some(f) => b.board@ == f && b.move_history@ == a.move_history@.push(m) && b.current_ply
                == a.current_ply + 1,
            None => b.board@ == a.board@ && b.move_history@ == a.move_history@ && b.current_ply
                == a.current_ply,
        },
        None => b.board@ == a.board@ && b.move_history@ == a.move_history@ && b.current_ply
            == a.current_ply,
    }
}

/// Does the first move of every variation take a piece?
pub open spec fn all_captures(fen: Seq<char>, pvs: Seq<PVView>) -> bool {
    forall|i: int| 0 <= i < pvs.len() ==> captures(fen, #[trigger] pvs[i].first_move)
}

/// The pending move, as text.
pub open spec fn pending_text(p: Option<String>) -> Option<Seq<char>> {
    match p {
        Some(s) => Some(s@),
        None => None,
    }
}

/// The manager after a game was reset: a fresh game, nothing pending or in
/// progress, no blunders this game and no timing totals; the move statistics stay.
pub open spec fn was_reset(old: GameManager, new: GameManager) -> bool {
    &&& fresh_game(new.state)
    &&& new.pending_move_uci is None
    &&& !new.is_processing
    &&& new.move_selector.game_blunder_count == 0
    &&& new.move_selector.variety_stats == old.move_selector.variety_stats
    &&& new.timing_engine.stats.total_moves == 0
    &&& new.timing_engine.stats.total_time_ms == 0
    &&& new.timing_engine.stats.engine_time_ms == 0
    &&& new.timing_engine.presets@ == old.timing_engine.presets@
    &&& new.timing_engine.active_preset == old.timing_engine.active_preset
    &&& new.timing_engine.lag_history@ == old.timing_engine.lag_history@
    &&& new.timing_engine.vpn_offset == old.timing_engine.vpn_offset
    &&& new.lichess_client.current_ack == old.lichess_client.current_ack
    &&& new.config == old.config
    &&& new.bridge_connected == old.bridge_connected
    &&& new.socket_ready == old.socket_ready
}

/// Can the socket event be handled without an arithmetic or board failure?
pub open spec fn event_handleable(g: GameManager, e: LichessEvent) -> bool {
    match e {
        LichessEvent::Move(d) => {
            &&& (d.clock matches Some(c) ==> (c.lag matches Some(l) ==> l * 10 <= u32::MAX))
            &&& (d.status is None && d.winner is None && pending_text(g.pending_move_uci) != Some(
                d.uci@,
            )) ==> (!uci_breaks_board(g.state.board@, d.uci@) && (parse_uci_spec(d.uci@) is Some
                ==> g.state.current_ply < u32::MAX))
        },
        _ => true,
    }
}

/// Can the lag to claim be computed without an arithmetic failure?
pub open spec fn lag_computable(t: TimingEngine) -> bool {
    &&& 0 < t.lag_history@.len() <= u32::MAX
    &&& lag_sum(t.lag_history@) <= u32::MAX
    &&& average_lag(t.lag_history@) + t.vpn_offset + 30 <= u32::MAX
}

impl GameManager {
    /// A manager for a new game with these settings: the timing engine has the
    /// configured VPN offset and preset.
    pub fn new(config: Config) -> (g: GameManager)
        ensures
            fresh_game(g.state),
            g.timing_engine.has_presets(),
            g.timing_engine.active_preset == config.config_mode,
            g.timing_engine.vpn_offset == config.vpn_ping_offset,
            g.timing_engine.lag_history@ == seq![50u32, 50u32, 50u32],
            g.timing_engine.stats.total_moves == 0,
            g.move_selector.game_blunder_count == 0,
            g.lichess_client.current_ack == 0,
            g.config == config,
            !g.is_processing,
            g.pending_move_uci is None,
            !g.bridge_connected,
            !g.socket_ready,
    {
        let mut timing_engine = TimingEngine::new(config.vpn_ping_offset);
        timing_engine.set_preset(config.config_mode);
        GameManager {
            state: GameState::new(),
            timing_engine,
            move_selector: MoveSelector::new(),
            lichess_client: LichessClient::new(),
            config,
            is_processing: false,
            pending_move_uci: None,
            bridge_connected: false,
            socket_ready: false,
        }
    }

    /// From now on moves go to the browser extension.
    pub fn set_bridge_handle(&mut self)
        ensures
            final(self).bridge_connected,
            final(self).socket_ready == old(self).socket_ready,
    {
        self.bridge_connected = true;
    }

    /// From now on moves can go to the game socket.
    pub fn set_ws_sender(&mut self)
        ensures
            final(self).socket_ready,
            final(self).bridge_connected == old(self).bridge_connected,
    {
        self.socket_ready = true;
    }

    /// Starts a new game.
    pub fn reset_game_state(&mut self)
        ensures
            was_reset(*old(self), *final(self)),
    {
        self.state.reset();
        self.pending_move_uci = None;
        self.is_processing = false;
        self.move_selector.reset();
        self.timing_engine.reset_stats();
    }

    /// Reacts to an event of the game socket; the result says whether to take our
    /// turn now.
    ///
    /// A move: its ply is acknowledged and its lag (centiseconds) recorded; a move
    /// that ends the game ends it; our own move seen back clears the pending move;
    /// any other move is played on the board. Then, with auto-run on, it is time to
    /// play. An acknowledgement clears the pending move; the end of the game starts
    /// a new one; a reload or resync drops the turn in progress and the pending move.
    pub fn handle_event(&mut self, event: LichessEvent) -> (start_turn: bool)
        requires
            event_handleable(*old(self), event),
        ensures
            match event {
                LichessEvent::Move(d) => {
                    &&& final(self).lichess_client.current_ack == d.ply
                    &&& final(self).timing_engine.lag_history@ == match d.clock {
                        Some(c) => match c.lag {
                            Some(l) => crate::timing::lag_window(
                                old(self).timing_engine.lag_history@,
                                (l * 10) as u32,
                            ),
                            None => old(self).timing_engine.lag_history@,
                        },
                        None => old(self).timing_engine.lag_history@,
                    }
                    &&& final(self).is_processing == old(self).is_processing
                    &&& final(self).config == old(self).config
                    &&& final(self).move_selector == old(self).move_selector
                    &&& if d.status is Some || d.winner is Some {
                        &&& final(self).state.game_ended
                        &&& final(self).state.board@ == old(self).state.board@
                        &&& final(self).state.move_history@ == old(self).state.move_history@
                        &&& final(self).state.current_ply == old(self).state.current_ply
                        &&& final(self).pending_move_uci == old(self).pending_move_uci
                        &&& !start_turn
                    } else if pending_text(old(self).pending_move_uci) == Some(d.uci@) {
                        &&& final(self).pending_move_uci is None
                        &&& final(self).state.last_move_acked
                        &&& final(self).state.board@ == old(self).state.board@
                        &&& final(self).state.move_history@ == old(self).state.move_history@
                        &&& final(self).state.current_ply == old(self).state.current_ply
                        &&& start_turn == old(self).config.auto_run
                    } else {
                        &&& final(self).pending_move_uci == old(self).pending_move_uci
                        &&& moved_on(old(self).state, final(self).state, d.uci@)
                        &&& start_turn == old(self).config.auto_run
                    }
                },
                LichessEvent::Ack => {
                    &&& final(self).state.last_move_acked
                    &&& final(self).pending_move_uci is None
                    &&& final(self).state.board@ == old(self).state.board@
                    &&& final(self).is_processing == old(self).is_processing
                    &&& !start_turn
                },
                LichessEvent::GameEnd(_) => was_reset(*old(self), *final(self)) && !start_turn,
                LichessEvent::Reload | LichessEvent::Resync => {
                    &&& !final(self).is_processing
                    &&& final(self).pending_move_uci is None
                    &&& final(self).state.board@ == old(self).state.board@
                    &&& final(self).state.move_history@ == old(self).state.move_history@
                    &&& !start_turn
                },
                _ => !start_turn && final(self).state.board@ == old(self).state.board@
                    && final(self).pending_move_uci == old(self).pending_move_uci
                    && final(self).is_processing == old(self).is_processing,
            },
    {
        match event {
            LichessEvent::Move(move_data) => {
                self.lichess_client.update_ack(move_data.ply);
                match &move_data.clock {
                    Some(clock) => match clock.lag {
                        Some(lag) => {
                            self.timing_engine.update_lag(lag * 10);
                        },
                        None => {},
                    },
                    None => {},
                }
                if move_data.status.is_some() || move_data.winner.is_some() {
                    self.state.game_ended = true;
                    return false;
                }
                let ours = match &self.pending_move_uci {
                    Some(p) => *p == move_data.uci,
                    None => false,
                };
                if ours {
                    // our own move, acknowledged
                    self.pending_move_uci = None;
                    self.state.last_move_acked = true;
                } else {
                    // the opponent's move
                    let _ = self.state.apply_move(move_data.uci.as_str());
                }
                self.config.auto_run
            },
            LichessEvent::Ack => {
                self.state.last_move_acked = true;
                self.pending_move_uci = None;
                false
            },
            LichessEvent::GameEnd(_) => {
                self.state.game_ended = true;
                self.reset_game_state();
                false
            },
            LichessEvent::Reload | LichessEvent::Resync => {
                self.is_processing = false;
                self.pending_move_uci = None;
                false
            },
            LichessEvent::Connected => false,
            LichessEvent::Disconnected => false,
            LichessEvent::Error(_) => false,
        }
    }

    /// Begins our turn if there is one to play: nothing when a turn is already in
    /// progress; otherwise, when it is our turn in a running game with no move
    /// pending, the turn is in progress and the engine is to search the position
    /// for the preset's time, four variations; else no turn starts.
    pub fn begin_turn(&mut self) -> (r: Option<TurnRequest>)
        requires
            old(self).timing_engine.has_presets(),
        ensures
            old(self).is_processing ==> r is None && final(self).is_processing,
            !old(self).is_processing ==> (r is Some <==> (crate::chess_logic::my_turn(
                old(self).state.board@,
                old(self).state.my_color,
            ) && !old(self).state.game_ended && old(self).pending_move_uci is None)),
            r matches Some(t) ==> {
                &&& final(self).is_processing
                &&& t.fen@ == old(self).state.board@
                &&& t.options.depth is None
                &&& t.options.movetime_ms == Some(old(self).timing_engine.active().engine_ms)
                &&& t.options.multi_pv == 4
            },
            r is None && !old(self).is_processing ==> !final(self).is_processing,
            turn_begun(*old(self), *final(self), r),
            final(self).state == old(self).state,
            final(self).pending_move_uci == old(self).pending_move_uci,
            keeps_all_but_state(*old(self), *final(self)),
    {
        if self.is_processing {
            return None;
        }
        self.is_processing = true;
        if !self.state.is_my_turn() {
            self.is_processing = false;
            return None;
        }
        if self.state.game_ended {
            self.is_processing = false;
            return None;
        }
        if self.pending_move_uci.is_some() {
            self.is_processing = false;
            return None;
        }
        let fen = self.state.fen();
        let preset = self.timing_engine.get_preset();
        Some(
            TurnRequest {
                fen,
                options: SearchOptions { depth: None, movetime_ms: Some(preset.engine_ms), multi_pv: 4 },
            },
        )
    }

    /// Gives up the turn in progress (no engine, or the engine found nothing).
    pub fn abort_turn(&mut self)
        ensures
            !final(self).is_processing,
            final(self).state == old(self).state,
            final(self).pending_move_uci == old(self).pending_move_uci,
            keeps_all_but_state(*old(self), *final(self)),
    {
        self.is_processing = false;
    }

    /// Chooses our move among the engine's variations, and the delay before
    /// playing it (in human mode; none otherwise). Without variations the turn is
    /// given up.
    pub fn choose_move(&mut self, pvs: &[PVLine]) -> (r: Option<PlannedMove>)
        requires
            old(self).timing_engine.has_presets(),
            old(self).config.varied_mode ==> moves_playable(old(self).state.board@, views(pvs@)),
            old(self).config.varied_mode ==> losses_fit(old(self).state.board@, views(pvs@)),
            old(self).config.varied_mode && pvs@.len() > 0 ==> counters_have_room(old(self).move_selector),
            !old(self).config.varied_mode && pvs@.len() > 0 ==> old(self).move_selector.variety_stats.pv1
                < u32::MAX,
            old(self).config.human_mode && !all_captures(old(self).state.board@, views(pvs@))
                ==> human_config_usable(
                old(self).timing_engine.active().human,
                old(self).timing_engine.stats,
                count_occupied(old(self).state.board@, 64),
            ),
        ensures
            pvs@.len() == 0 ==> r is None && !final(self).is_processing && final(self).move_selector
                == old(self).move_selector,
            pvs@.len() > 0 ==> r is Some && final(self).is_processing == old(self).is_processing,
            r matches Some(p) ==> {
                &&& exists|c: Choice, m: crate::move_selector::SelectedMove|
                    {
                        &&& chose(old(self).move_selector, final(self).move_selector, views(pvs@), c, m)
                        &&& p.uci@ == m.uci@
                        &&& p.pv_index == m.pv_index
                        &&& (old(self).config.varied_mode ==> exists|rolls: SelectionRolls|
                            selection_rolls_in_range(rolls) && varied_choice(
                                old(self).state.board@,
                                views(pvs@),
                                old(self).timing_engine.active().varied,
                                old(self).move_selector.game_blunder_count,
                                rolls,
                            ) == Some(c))
                        &&& (!old(self).config.varied_mode ==> c == (Choice {
                            pv: 0,
                            pv_index: 0,
                            is_blunder: false,
                        }))
                    }
                &&& old(self).config.human_mode ==> exists|rolls: HumanRolls|
                    rolls_in_range(rolls) && p.delay_ms == human_delay(
                        old(self).timing_engine.active().human,
                        old(self).timing_engine.stats,
                        count_occupied(old(self).state.board@, 64),
                        captures(old(self).state.board@, p.uci@),
                        rolls,
                    )
                &&& !old(self).config.human_mode ==> p.delay_ms == 0
            },
            final(self).state == old(self).state,
            final(self).pending_move_uci == old(self).pending_move_uci,
            final(self).timing_engine.stats == old(self).timing_engine.stats,
            final(self).config == old(self).config,
            keeps_channels_and_timing(*old(self), *final(self)),
            move_chosen(*old(self), *final(self), views(pvs@), r),
    {
        if pvs.len() == 0 {
            self.is_processing = false;
            return None;
        }
        let cfg = self.timing_engine.get_preset().varied;
        let varied = self.config.varied_mode;
        let ghost before = self.move_selector;
        let selected = self.move_selector.select_move(pvs, &self.state, varied, &cfg);
        let selected = match selected {
            Some(s) => s,
            None => {
                self.is_processing = false;
                return None;
            },
        };
        proof {
            // the move played is the first move of one of the variations
            let ps = views(pvs@);
            if varied {
                let rolls = choose|rolls: SelectionRolls|
                    #[trigger] selection_rolls_in_range(rolls) && match varied_choice(
                        self.state.board@,
                        ps,
                        cfg,
                        before.game_blunder_count,
                        rolls,
                    ) {
                        None => false,
                        Some(c) => chose(before, self.move_selector, ps, c, selected),
                    };
                crate::move_selector::lemma_varied_choice_is_sound(
                    self.state.board@,
                    ps,
                    cfg,
                    before.game_blunder_count,
                    rolls,
                );
                let c = varied_choice(self.state.board@, ps, cfg, before.game_blunder_count, rolls)->0;
                assert(selected.uci@ == ps[c.pv].first_move);
                assert(all_captures(self.state.board@, ps) ==> captures(self.state.board@, selected.uci@));
            } else {
                assert(selected.uci@ == ps[0].first_move);
                assert(all_captures(self.state.board@, ps) ==> captures(self.state.board@, selected.uci@));
            }
        }
        let delay_ms = if self.config.human_mode {
            let is_capture = self.state.is_capture(selected.uci.as_str());
            self.timing_engine.calculate_human_delay(&self.state, selected.uci.as_str(), is_capture)
        } else {
            0
        };
        Some(PlannedMove { uci: selected.uci, pv_index: selected.pv_index, delay_ms })
    }

    /// Decides how to send our move. Through the browser extension when it is in
    /// use; otherwise through the game socket, claiming the (panic-mode) lag
    /// compensation, with the last acknowledged ply, after counting the engine
    /// time in the totals and recording the move as pending; with neither, the
    /// turn is given up.
    pub fn execute_move(&mut self, uci: String, engine_time: u32) -> (plan: SendPlan)
        requires
            !old(self).bridge_connected && old(self).socket_ready ==> {
                &&& lag_computable(old(self).timing_engine)
                &&& old(self).timing_engine.stats.total_moves < u32::MAX
                &&& old(self).timing_engine.stats.engine_time_ms + engine_time <= u32::MAX
            },
        ensures
            move_dispatched(*old(self), *final(self), uci@, engine_time, plan),
    {
        if self.bridge_connected {
            return SendPlan::Bridge { uci };
        }
        if !self.socket_ready {
            self.is_processing = false;
            return SendPlan::NoChannel;
        }
        let ack = self.lichess_client.get_ack();
        let lag = if self.config.panic_mode {
            self.timing_engine.get_panic_lag_compensation()
        } else {
            self.timing_engine.get_lag_compensation()
        };
        self.timing_engine.update_stats(0, engine_time);
        self.pending_move_uci = Some(uci.clone());
        SendPlan::Socket { request: MoveRequest::new(uci, ack, false, lag) }
    }

    /// Our move went out: it is played on the board, not yet acknowledged, pending,
    /// and the turn is over.
    pub fn record_sent_move(&mut self, uci: &str)
        requires
            !uci_breaks_board(old(self).state.board@, uci@),
            parse_uci_spec(uci@) is Some ==> old(self).state.current_ply < u32::MAX,
        ensures
            !final(self).state.last_move_acked,
            moved_on(old(self).state, final(self).state, uci@),
            pending_text(final(self).pending_move_uci) == Some(uci@),
            !final(self).is_processing,
            keeps_all_but_state(*old(self), *final(self)),
            move_recorded(*old(self), *final(self), uci@),
    {
        self.state.last_move_acked = false;
        let _ = self.state.apply_move(uci);
        self.pending_move_uci = Some(String::from_str(uci));
        self.is_processing = false;
    }

    /// Reacts to a message of the browser extension. A game state updates the
    /// position and may start our turn; an offered rematch is accepted when
    /// auto-rematch is on and the extension is in use; an accepted rematch or a new
    /// game starts a new game.
    pub fn handle_bridge_message(&mut self, message: BrowserMessage) -> (out: BridgeOutcome)
        requires
            message matches BrowserMessage::GameState(m) ==> m.moves@.len() < u32::MAX,
        ensures
            match message {
                BrowserMessage::GameState(m) => out.start_turn == (m.is_my_turn && !m.game_ended
                    && old(self).config.auto_run) && !out.accept_rematch && game_state_applied(
                    *old(self),
                    *final(self),
                    m,
                ),
                BrowserMessage::RematchAvailable { .. } => !out.start_turn && out.accept_rematch == (
                old(self).config.auto_rematch && old(self).bridge_connected) && final(self).state
                    == old(self).state && final(self).pending_move_uci == old(self).pending_move_uci
                    && final(self).is_processing == old(self).is_processing,
                BrowserMessage::RematchAccepted { .. } => !out.start_turn && !out.accept_rematch
                    && was_reset(*old(self), *final(self)),
                BrowserMessage::NewGame { .. } => !out.start_turn && !out.accept_rematch && was_reset(
                    *old(self),
                    *final(self),
                ),
            },
    {
        match message {
            BrowserMessage::GameState(state_msg) => {
                let start_turn = self.handle_game_state(state_msg);
                BridgeOutcome { start_turn, accept_rematch: false }
            },
            BrowserMessage::RematchAvailable { game_id: _ } => {
                BridgeOutcome {
                    start_turn: false,
                    accept_rematch: self.config.auto_rematch && self.bridge_connected,
                }
            },
            BrowserMessage::RematchAccepted { game_id: _ } => {
                self.reset_game_state();
                BridgeOutcome { start_turn: false, accept_rematch: false }
            },
            BrowserMessage::NewGame { game_id: _ } => {
                self.reset_game_state();
                BridgeOutcome { start_turn: false, accept_rematch: false }
            },
        }
    }

    /// Takes in the browser's view of the game: when its move list is not empty and
    /// its length differs from ours, the game is replayed from the start; our side
    /// and whether the game ended are taken over. It is time to play when the
    /// browser says it is our turn in a running game and auto-run is on.
    pub fn handle_game_state(&mut self, state_msg: GameStateMessage) -> (start_turn: bool)
        requires
            state_msg.moves@.len() < u32::MAX,
        ensures
            start_turn == (state_msg.is_my_turn && !state_msg.game_ended && old(self).config.auto_run),
            game_state_applied(*old(self), *final(self), state_msg),
    {
        if state_msg.moves.len() > 0 && self.state.move_history.len() != state_msg.moves.len() {
            self.state.reset();
            let ghost moves = texts_of(state_msg.moves@);
            let mut i: usize = 0;
            while i < state_msg.moves.len()
                invariant
                    i <= state_msg.moves@.len(),
                    state_msg.moves@.len() < u32::MAX,
                    moves == texts_of(state_msg.moves@),
                    replay_of(self.state) == replay(fresh_replay(), moves, i as int),
                    self.state.current_ply <= i,
                    self.state.my_color is None,
                    !self.state.game_ended,
                    self.state.pending_move is None,
                    !self.state.last_move_acked,
                    keeps_all_but_state(*old(self), *self),
                    self.pending_move_uci == old(self).pending_move_uci,
                    self.is_processing == old(self).is_processing,
                    state_msg.moves@.len() > 0 && old(self).state.move_history@.len() != state_msg.moves@.len(),
                decreases state_msg.moves@.len() - i,
            {
                assert(moves[i as int] == state_msg.moves@[i as int]@);
                replay_move(&mut self.state, state_msg.moves[i].as_str());
                i = i + 1;
            }
        }
        self.state.my_color = Some(state_msg.my_color);
        self.state.game_ended = state_msg.game_ended;
        state_msg.is_my_turn && !state_msg.game_ended && self.config.auto_run
    }
}

/// The replay state of a game.
pub open spec fn replay_of(g: GameState) -> Replay {
    Replay { board: g.board@, history: g.move_history@, ply: g.current_ply as int }
}

/// The texts of a vector of strings.
pub open spec fn texts_of(v: Seq<String>) -> Seq<Seq<char>> {
    v.map_values(|s: String| s@)
}

/// The manager after taking in the browser's view of the game.
pub open spec fn game_state_applied(old: GameManager, new: GameManager, m: GameStateMessage) -> bool {
    &&& new.state.my_color == Some(m.my_color)
    &&& new.state.game_ended == m.game_ended
    &&& if m.moves@.len() > 0 && old.state.move_history@.len() != m.moves@.len() {
        &&& replay_of(new.state) == replay(fresh_replay(), texts_of(m.moves@), m.moves@.len() as int)
        &&& new.state.pending_move is None
        &&& !new.state.last_move_acked
    } else {
        &&& replay_of(new.state) == replay_of(old.state)
        &&& new.state.pending_move == old.state.pending_move
        &&& new.state.last_move_acked == old.state.last_move_acked
    }
    &&& new.pending_move_uci == old.pending_move_uci
    &&& new.is_processing == old.is_processing
    &&& keeps_all_but_state(old, new)
}

/// Plays the move written `t` unless the `chess` crate cannot take it.
fn apply_if_playable(state: &mut GameState, t: &str)
    requires
        parse_uci_spec(t@) is Some ==> old(state).current_ply < u32::MAX,
    ensures
        replay_of(*final(state)) == replay_apply(replay_of(*old(state)), t@),
        final(state).my_color == old(state).my_color,
        final(state).game_ended == old(state).game_ended,
        final(state).pending_move == old(state).pending_move,
        final(state).last_move_acked == old(state).last_move_acked,
        final(state).current_ply <= old(state).current_ply + 1,
{
    if state.can_play(t) {
        let _ = state.apply_move(t);
    }
}

/// One move of the browser's list: played in UCI notation when legal, else by
/// its SAN, else skipped.
fn replay_move(state: &mut GameState, t: &str)
    requires
        old(state).current_ply < u32::MAX,
    ensures
        replay_of(*final(state)) == replay_step(replay_of(*old(state)), t@),
        final(state).my_color == old(state).my_color,
        final(state).game_ended == old(state).game_ended,
        final(state).pending_move == old(state).pending_move,
        final(state).last_move_acked == old(state).last_move_acked,
        final(state).current_ply <= old(state).current_ply + 1,
{
    match parse_uci(t) {
        Some(m) => {
            if crate::board::is_legal_move(state.board.as_str(), m) {
                apply_if_playable(state, t);
                return;
            }
        },
        None => {},
    }
    match san_to_uci(state.board.as_str(), t) {
        Some(u) => apply_if_playable(state, u.as_str()),
        None => {},
    }
}


proof fn lemma_first_san_match_sound(fen: Seq<char>, moves: Seq<Seq<char>>, san: Seq<char>, i: int)
    ensures
        first_san_match(fen, moves, san, i) matches Some(t) ==> moves.contains(t) && san_names(fen, t, san),
    decreases moves.len() - i,
{
    if 0 <= i < moves.len() {
        if !san_names(fen, moves[i], san) {
            lemma_first_san_match_sound(fen, moves, san, i + 1);
        }
    }
}

/// A SAN is turned into a legal move of the position that it names.
pub proof fn lemma_san_to_uci_sound(fen: Seq<char>, san: Seq<char>)
    ensures
        san_to_uci_spec(fen, san) matches Some(t) ==> chess_legal_moves(fen).contains(t) && san_names(
            fen,
            t,
            san,
        ),
{
    lemma_first_san_match_sound(fen, chess_legal_moves(fen), san, 0);
}

/// A king moving two files is castling: to the right it is `O-O`, to the left `O-O-O`.
pub proof fn lemma_castling_san(dest_occupied: bool, m: UciMove)
    ensures
        m.dest as int - m.source as int == 2 ==> san_text(Some(PieceKind::King), dest_occupied, m) == "O-O"@,
        m.dest as int - m.source as int == -2 ==> san_text(Some(PieceKind::King), dest_occupied, m)
            == "O-O-O"@,
{
}

/// When it is not our turn, the game has ended or a move of ours is pending, a
/// turn does nothing: no search is asked for, the game and the pending move stay,
/// and no turn is left in progress.
pub proof fn lemma_turn_not_due(a: GameManager, b: GameManager, r: Option<TurnRequest>)
    requires
        turn_begun(a, b, r),
        !a.is_processing,
        !turn_due(a),
    ensures
        r is None,
        b.state == a.state,
        b.pending_move_uci == a.pending_move_uci,
        !b.is_processing,
        keeps_all_but_state(a, b),
{
}

/// A whole turn (`begin_turn`, `choose_move`, `execute_move`, `record_sent_move`):
/// the move chosen goes out through the browser extension when it is in use, else
/// through the game socket with the last acknowledged ply and the lag claimed from
/// the recent lags; outside varied mode it is the engine's best move, outside human
/// mode it is played at once; afterwards it is played on the board, pending and
/// not yet acknowledged, and no turn is in progress.
pub proof fn lemma_whole_turn(
    g0: GameManager,
    g1: GameManager,
    g2: GameManager,
    g3: GameManager,
    g4: GameManager,
    t: TurnRequest,
    pvs: Seq<PVView>,
    p: PlannedMove,
    engine_time: u32,
    plan: SendPlan,
)
    requires
        turn_begun(g0, g1, Some(t)),
        move_chosen(g1, g2, pvs, Some(p)),
        move_dispatched(g2, g3, p.uci@, engine_time, plan),
        move_recorded(g3, g4, p.uci@),
    ensures
        t.fen@ == g0.state.board@,
        g0.bridge_connected ==> (plan matches SendPlan::Bridge { uci: u } && u@ == p.uci@),
        !g0.bridge_connected && g0.socket_ready ==> (plan matches SendPlan::Socket { request } && {
            &&& request.d.u@ == p.uci@
            &&& request.d.a == g0.lichess_client.current_ack
            &&& request.d.l == if g0.config.panic_mode {
                panic_lag_claim(average_lag(g0.timing_engine.lag_history@), g0.timing_engine.vpn_offset as int)
            } else {
                lag_claim(average_lag(g0.timing_engine.lag_history@), g0.timing_engine.vpn_offset as int)
            }
        }),
        !g0.config.varied_mode ==> p.uci@ == pvs[0].first_move,
        !g0.config.human_mode ==> p.delay_ms == 0,
        moved_on(g0.state, g4.state, p.uci@),
        pending_text(g4.pending_move_uci) == Some(p.uci@),
        !g4.state.last_move_acked,
        !g4.is_processing,
{
}

proof fn lemma_first_san_match_finds(fen: Seq<char>, moves: Seq<Seq<char>>, san: Seq<char>, t: Seq<char>, i: int)
    requires
        0 <= i,
        exists|k: int| i <= k < moves.len() && moves[k] == t,
        san_names(fen, t, san),
        forall|j: int| i <= j < moves.len() && san_names(fen, #[trigger] moves[j], san) ==> moves[j] == t,
    ensures
        first_san_match(fen, moves, san, i) == Some(t),
    decreases moves.len() - i,
{
    if moves[i] != t {
        assert(!san_names(fen, moves[i], san));
        let k = choose|k: int| i <= k < moves.len() && moves[k] == t;
        assert(k > i);
        lemma_first_san_match_finds(fen, moves, san, t, i + 1);
    }
}

/// A SAN that names exactly one legal move of the position is turned into that
/// move. Standard SAN names exactly one: it adds the source file, rank or square
/// where the plain SAN would name several moves.
pub proof fn lemma_san_to_uci_complete(fen: Seq<char>, t: Seq<char>, san: Seq<char>)
    requires
        chess_legal_moves(fen).contains(t),
        san_names(fen, t, san),
        forall|u: Seq<char>| chess_legal_moves(fen).contains(u) && #[trigger] san_names(fen, u, san) ==> u == t,
    ensures
        san_to_uci_spec(fen, san) == Some(t),
{
    let moves = chess_legal_moves(fen);
    assert forall|j: int| 0 <= j < moves.len() && san_names(fen, #[trigger] moves[j], san) implies moves[j] == t by {
        assert(moves.contains(moves[j]));
    }
    lemma_first_san_match_finds(fen, moves, san, t, 0);
}

/// A move's SAN names it, also followed by a check or a mate sign; so does, for
/// a piece other than a pawn, its SAN with the source file, rank or square added
/// after the piece letter, with or without such a sign.
pub proof fn lemma_san_with_sign_names(fen: Seq<char>, t: Seq<char>)
    ensures
        san_names(fen, t, san_of_uci(fen, t)),
        san_names(fen, t, san_of_uci(fen, t).push('+')),
        san_names(fen, t, san_of_uci(fen, t).push('#')),
        parse_uci_spec(t) matches Some(m) ==> (piece_at(fen, m.source as int) matches Some(p) && p
            != PieceKind::Pawn && san_of_uci(fen, t).len() > 0 && san_of_uci(fen, t)[0] != 'O') ==> {
            let base = san_of_uci(fen, t);
            let f = seq![file_letter(m.source as int)];
            let k = seq![rank_digit(m.source as int)];
            let q = seq![file_letter(m.source as int), rank_digit(m.source as int)];
            &&& san_names(fen, t, insert_after_first(base, f))
            &&& san_names(fen, t, insert_after_first(base, k))
            &&& san_names(fen, t, insert_after_first(base, q))
            &&& san_names(fen, t, insert_after_first(base, f).push('+'))
            &&& san_names(fen, t, insert_after_first(base, k).push('+'))
            &&& san_names(fen, t, insert_after_first(base, q).push('+'))
            &&& san_names(fen, t, insert_after_first(base, f).push('#'))
            &&& san_names(fen, t, insert_after_first(base, k).push('#'))
            &&& san_names(fen, t, insert_after_first(base, q).push('#'))
        },
{
    let base = san_of_uci(fen, t);
    assert(base.push('+').drop_last() =~= base);
    assert(base.push('#').drop_last() =~= base);
    if base.len() > 0 {
        let m = parse_uci_spec(t)->0;
        let moved = piece_at(fen, m.source as int);
        let occ = occupied(fen, m.dest as int);
        assert(base == san_text(moved, occ, m));
        let src = m.source as int;
        let dst = m.dest as int;
        if moved == Some(PieceKind::King) && dst - src == 2 {
            reveal_strlit("O-O");
            assert(base.last() == 'O');
        } else if moved == Some(PieceKind::King) && dst - src == -2 {
            reveal_strlit("O-O-O");
            assert(base.last() == 'O');
        } else {
            let d = rank_digit(dst);
            assert(0 <= dst / 8 <= 31);
            assert(d as int == dst / 8 + 49);
            match m.promotion {
                Some(p) => {
                    assert(base.last() == promotion_letter(p));
                },
                None => {
                    assert(base.last() == d);
                },
            }
        }
        assert(base.last() != '+' && base.last() != '#');
        if moved matches Some(pk) && pk != PieceKind::Pawn && base[0] != 'O' {
            assert(base.len() >= 3);
            let f = seq![file_letter(m.source as int)];
            let k = seq![rank_digit(m.source as int)];
            let q = seq![file_letter(m.source as int), rank_digit(m.source as int)];
            assert(insert_after_first(base, f).last() == base.last());
            assert(insert_after_first(base, k).last() == base.last());
            assert(insert_after_first(base, q).last() == base.last());
            assert(insert_after_first(base, f).push('+').drop_last() =~= insert_after_first(base, f));
            assert(insert_after_first(base, k).push('+').drop_last() =~= insert_after_first(base, k));
            assert(insert_after_first(base, q).push('+').drop_last() =~= insert_after_first(base, q));
            assert(insert_after_first(base, f).push('#').drop_last() =~= insert_after_first(base, f));
            assert(insert_after_first(base, k).push('#').drop_last() =~= insert_after_first(base, k));
            assert(insert_after_first(base, q).push('#').drop_last() =~= insert_after_first(base, q));
        }
    }
}

/// The SAN of a move that is not castling ends with its destination square, file
/// letter then rank digit, followed for a promotion by `=` and the letter of the
/// piece promoted to (N, B, R or Q); a capture puts `x` before the destination.
pub proof fn lemma_san_ends_with_destination(moved: Option<PieceKind>, dest_occupied: bool, m: UciMove)
    requires
        m.source < 64,
        m.dest < 64,
        !(moved == Some(PieceKind::King) && (m.dest as int - m.source as int == 2 || m.dest as int
            - m.source as int == -2)),
    ensures
        ({
            let s = san_text(moved, dest_occupied, m);
            let file = (((m.dest as int) % 8) + 97) as char;
            let rank = (((m.dest as int) / 8) + 49) as char;
            match m.promotion {
                Some(p) => {
                    &&& s.len() >= 4
                    &&& s[s.len() - 4] == file
                    &&& s[s.len() - 3] == rank
                    &&& s[s.len() - 2] == '='
                    &&& s[s.len() - 1] == match p {
                        PieceKind::Knight => 'N',
                        PieceKind::Bishop => 'B',
                        PieceKind::Rook => 'R',
                        PieceKind::Queen => 'Q',
                        _ => ' ',
                    }
                    &&& (dest_occupied ==> s[s.len() - 5] == 'x')
                },
                None => {
                    &&& s.len() >= 2
                    &&& s[s.len() - 2] == file
                    &&& s[s.len() - 1] == rank
                    &&& (dest_occupied ==> s.len() >= 3 && s[s.len() - 3] == 'x')
                },
            }
        }),
{
    let s = san_text(moved, dest_occupied, m);
    let src = m.source as int;
    let dst = m.dest as int;
    let is_capture = dest_occupied || (moved == Some(PieceKind::Pawn) && src % 8 != dst % 8);
    let prefix: Seq<char> = if moved != Some(PieceKind::Pawn) {
        match moved {
            Some(p) => seq![san_letter(p)],
            None => Seq::empty(),
        }
    } else if is_capture {
        seq![file_letter(src)]
    } else {
        Seq::empty()
    };
    let body = prefix + (if is_capture { seq!['x'] } else { Seq::empty() }) + seq![file_letter(dst), rank_digit(dst)];
    assert(body.len() >= 2);
    assert(body[body.len() - 2] == file_letter(dst));
    assert(body[body.len() - 1] == rank_digit(dst));
    if is_capture {
        assert(body[body.len() - 3] == 'x');
    }
}

} // verus!
