//! Chess positions and moves as plain values, and the calls into the `chess` crate.
//!
//! A position is held as the FEN text that the `chess` crate prints for its board;
//! a move is held as its source square, destination square and promotion piece
//! (squares are numbered `rank * 8 + file`, a1 = 0, h8 = 63). Everything the
//! position can tell (pieces, side to move, legal moves, the board after a move)
//! comes from the `chess` crate, through the functions below.
use vstd::prelude::*;
use crate::text::{append_str, push_char};
use std::str::FromStr;

verus! {

/// The kinds of chess pieces, in the order the `chess` crate numbers them.
#[derive(Debug, Clone, Copy, PartialEq, Eq, Structural)]
pub enum PieceKind {
    Pawn,
    Knight,
    Bishop,
    Rook,
    Queen,
    King,
}

/// The number the `chess` crate gives each piece kind (`Piece::to_index`).
pub open spec fn piece_index(p: PieceKind) -> int {
    match p {
        PieceKind::Pawn => 0,
        PieceKind::Knight => 1,
        PieceKind::Bishop => 2,
        PieceKind::Rook => 3,
        PieceKind::Queen => 4,
        PieceKind::King => 5,
    }
}

/// The piece kind numbered `i < 6`.
pub open spec fn piece_of_index(i: int) -> PieceKind {
    if i == 0 {
        PieceKind::Pawn
    } else if i == 1 {
        PieceKind::Knight
    } else if i == 2 {
        PieceKind::Bishop
    } else if i == 3 {
        PieceKind::Rook
    } else if i == 4 {
        PieceKind::Queen
    } else {
        PieceKind::King
    }
}

impl PieceKind {
    /// The piece kind numbered `i`.
    pub fn from_index(i: usize) -> (p: PieceKind)
        requires
            i < 6,
        ensures
            p == piece_of_index(i as int),
            piece_index(p) == i,
    {
        match i {
            0 => PieceKind::Pawn,
            1 => PieceKind::Knight,
            2 => PieceKind::Bishop,
            3 => PieceKind::Rook,
            4 => PieceKind::Queen,
            _ => PieceKind::King,
        }
    }

    /// The number of this piece kind.
    pub fn index(&self) -> (i: usize)
        ensures
            i as int == piece_index(*self),
    {
        match self {
            PieceKind::Pawn => 0,
            PieceKind::Knight => 1,
            PieceKind::Bishop => 2,
            PieceKind::Rook => 3,
            PieceKind::Queen => 4,
            PieceKind::King => 5,
        }
    }
}

/// A move in UCI terms: from a square to a square, with an optional promotion.
#[derive(Debug, Clone, Copy, PartialEq, Eq, Structural)]
pub struct UciMove {
    pub source: u8,
    pub dest: u8,
    pub promotion: Option<PieceKind>,
}

/// Is `c` a file letter `a`..`h`?
pub open spec fn is_file_char(c: char) -> bool {
    'a' <= c && c <= 'h'
}

/// Is `c` a rank digit `1`..`8`?
pub open spec fn is_rank_char(c: char) -> bool {
    '1' <= c && c <= '8'
}

/// The square named by a file letter and a rank digit.
pub open spec fn square_named(file: char, rank: char) -> int {
    ((rank as int) - ('1' as int)) * 8 + ((file as int) - ('a' as int))
}

/// The promotion piece a UCI suffix letter names.
pub open spec fn promotion_named(c: char) -> Option<PieceKind> {
    if c == 'q' {
        Some(PieceKind::Queen)
    } else if c == 'r' {
        Some(PieceKind::Rook)
    } else if c == 'n' {
        Some(PieceKind::Knight)
    } else if c == 'b' {
        Some(PieceKind::Bishop)
    } else {
        None
    }
}

/// What `ChessMove::from_str` accepts: two squares, then, when the text is five
/// bytes long, a promotion letter; text after the fourth character is otherwise
/// ignored.
pub open spec fn parse_uci_spec(c: Seq<char>) -> Option<UciMove> {
    if c.len() >= 4 && is_file_char(c[0]) && is_rank_char(c[1]) && is_file_char(c[2])
        && is_rank_char(c[3]) {
        let source = square_named(c[0], c[1]) as u8;
        let dest = square_named(c[2], c[3]) as u8;
        if c.len() == 5 && (c[4] as int) < 128 {
            match promotion_named(c[4]) {
                Some(p) => Some(UciMove { source, dest, promotion: Some(p) }),
                None => None,
            }
        } else {
            Some(UciMove { source, dest, promotion: None })
        }
    } else {
        None
    }
}

/// The file letter of a square.
pub open spec fn file_char(square: int) -> char {
    ((square % 8) + ('a' as int)) as char
}

/// The rank digit of a square.
pub open spec fn rank_char(square: int) -> char {
    ((square / 8) + ('1' as int)) as char
}

/// The letter the `chess` crate prints for a piece kind (lower case).
pub open spec fn piece_letter(p: PieceKind) -> char {
    match p {
        PieceKind::Pawn => 'p',
        PieceKind::Knight => 'n',
        PieceKind::Bishop => 'b',
        PieceKind::Rook => 'r',
        PieceKind::Queen => 'q',
        PieceKind::King => 'k',
    }
}

/// The UCI text of a move, as the `chess` crate prints a `ChessMove`.
pub open spec fn uci_text(m: UciMove) -> Seq<char> {
    let squares = seq![
        file_char(m.source as int),
        rank_char(m.source as int),
        file_char(m.dest as int),
        rank_char(m.dest as int),
    ];
    match m.promotion {
        Some(p) => squares.push(piece_letter(p)),
        None => squares,
    }
}

/// Is `m` a move on the board (both squares below 64) that the UCI notation can
/// write back (no promotion to a pawn or a king)?
pub open spec fn well_formed_move(m: UciMove) -> bool {
    &&& m.source < 64
    &&& m.dest < 64
    &&& match m.promotion {
        Some(p) => p != PieceKind::Pawn && p != PieceKind::King,
        None => true,
    }
}

/// Is `t` the UCI text of a well-formed move?
pub open spec fn is_move_text(t: Seq<char>) -> bool {
    exists|m: UciMove| well_formed_move(m) && t == uci_text(m)
}

/// Where the first space at or after `i` stands in `s` (`s.len()` if none).
pub open spec fn next_space(s: Seq<char>, i: int) -> int
    decreases s.len() - i,
{
    if i < 0 || i >= s.len() {
        s.len() as int
    } else if s[i] == ' ' {
        i
    } else {
        next_space(s, i + 1)
    }
}

/// Reading the piece placement of a FEN text: how many `/` were seen, how many
/// squares of the current rank are filled, and whether every rank so far stays
/// within eight ranks of eight squares.
pub struct Layout {
    pub ok: bool,
    pub slashes: int,
    pub width: int,
}

/// The layout after the first `n` characters of `s` (any character other than
/// `/` or a digit `1`..`8` fills one square).
pub open spec fn layout(s: Seq<char>, n: int) -> Layout
    decreases n,
{
    if n <= 0 {
        Layout { ok: true, slashes: 0, width: 0 }
    } else {
        let st = layout(s, n - 1);
        let c = s[n - 1];
        if c == '/' {
            Layout { ok: st.ok && st.slashes < 7, slashes: st.slashes + 1, width: 0 }
        } else if '1' <= c && c <= '8' {
            let w = st.width + ((c as int) - ('0' as int));
            Layout { ok: st.ok && w <= 8, slashes: st.slashes, width: w }
        } else {
            Layout { ok: st.ok && st.width < 8, slashes: st.slashes, width: st.width + 1 }
        }
    }
}

/// Does `c` occur among the first `n` characters of `s`?
pub open spec fn occurs_before(s: Seq<char>, c: char, n: int) -> bool {
    exists|k: int| 0 <= k < n && s[k] == c
}

/// Can `Board::from_str` read the text without running into undefined behaviour?
/// It places the pieces rank by rank and wraps around when a rank or the board
/// overflows, and it looks up the king of the side to move before it checks that
/// there is one. So the placement must stay within eight ranks of eight squares,
/// and when the side field is `w`/`W` (`b`/`B`) the placement must hold a `K`
/// (`k`). A text that fails this is not read at all.
pub open spec fn fen_safe(s: Seq<char>) -> bool {
    let n0 = next_space(s, 0);
    let n1 = next_space(s, n0 + 1);
    let white = n1 == n0 + 2 && (s[n0 + 1] == 'w' || s[n0 + 1] == 'W');
    let black = n1 == n0 + 2 && (s[n0 + 1] == 'b' || s[n0 + 1] == 'B');
    &&& layout(s, n0).ok
    &&& (white ==> occurs_before(s, 'K', n0))
    &&& (black ==> occurs_before(s, 'k', n0))
}

/// The FEN text the `chess` crate prints for the board that `Board::from_str`
/// reads from `fen` (`None` when it refuses the text).
pub uninterp spec fn crate_fen(fen: Seq<char>) -> Option<Seq<char>>;

/// The number (`Piece::to_index`) of the piece on `square` of the board read from
/// `fen`, `None` for an empty square or an unreadable text.
pub uninterp spec fn crate_piece_on(fen: Seq<char>, square: int) -> Option<int>;

/// The number (`Color::to_index`, white 0) of the colour of the piece on `square`.
pub uninterp spec fn crate_color_on(fen: Seq<char>, square: int) -> Option<int>;

/// The number of the side to move on the board read from `fen`.
pub uninterp spec fn crate_side_to_move(fen: Seq<char>) -> Option<int>;

/// The FEN text of the board after the move from `source` to `dest` (with the
/// promotion numbered `promotion`, if any), as `Board::make_move_new` makes it.
pub uninterp spec fn crate_fen_after(
    fen: Seq<char>,
    source: int,
    dest: int,
    promotion: Option<int>,
) -> Option<Seq<char>>;

/// The numbers of pawns, knights, bishops, rooks and queens of both colours
/// (`pieces(..).popcnt()`) on the board after the move.
pub uninterp spec fn crate_kinds_after(
    fen: Seq<char>,
    source: int,
    dest: int,
    promotion: Option<int>,
) -> Option<(int, int, int, int, int)>;

/// The UCI texts of the legal moves of the board read from `fen`, in the order
/// `MoveGen::new_legal` yields them (empty for an unreadable text).
pub uninterp spec fn crate_legal_moves(fen: Seq<char>) -> Seq<Seq<char>>;

/// The position the library reads from `fen`: the crate's board for a text it
/// can read safely, none otherwise.
pub open spec fn chess_fen(fen: Seq<char>) -> Option<Seq<char>> {
    if fen_safe(fen) { crate_fen(fen) } else { None }
}

/// The piece kind number on `square` of the position read from `fen`.
pub open spec fn chess_piece_on(fen: Seq<char>, square: int) -> Option<int> {
    if fen_safe(fen) { crate_piece_on(fen, square) } else { None }
}

/// The colour number of the piece on `square` of the position read from `fen`.
pub open spec fn chess_color_on(fen: Seq<char>, square: int) -> Option<int> {
    if fen_safe(fen) { crate_color_on(fen, square) } else { None }
}

/// The side to move of the position read from `fen`.
pub open spec fn chess_side_to_move(fen: Seq<char>) -> Option<int> {
    if fen_safe(fen) { crate_side_to_move(fen) } else { None }
}

/// The position after a move.
pub open spec fn chess_fen_after(fen: Seq<char>, source: int, dest: int, promotion: Option<int>) -> Option<
    Seq<char>,
> {
    if fen_safe(fen) { crate_fen_after(fen, source, dest, promotion) } else { None }
}

/// The numbers of pawns, knights, bishops, rooks and queens after a move.
pub open spec fn chess_kinds_after(fen: Seq<char>, source: int, dest: int, promotion: Option<int>) -> Option<
    (int, int, int, int, int),
> {
    if fen_safe(fen) { crate_kinds_after(fen, source, dest, promotion) } else { None }
}

/// The legal moves of the position read from `fen`, in UCI notation.
pub open spec fn chess_legal_moves(fen: Seq<char>) -> Seq<Seq<char>> {
    if fen_safe(fen) { crate_legal_moves(fen) } else { Seq::empty() }
}

/// The FEN text of the initial position.
pub open spec fn initial_fen() -> Seq<char> {
    "rnbqkbnr/pppppppp/8/8/8/8/PPPPPPPP/RNBQKBNR w KQkq - 0 1"@
}

/// The promotion as the `chess` crate numbers it.
pub open spec fn promotion_index(m: UciMove) -> Option<int> {
    match m.promotion {
        Some(p) => Some(piece_index(p)),
        None => None,
    }
}

/// Is `m` a legal move of the position read from `fen`?
pub open spec fn move_legal(fen: Seq<char>, m: UciMove) -> bool {
    chess_legal_moves(fen).contains(uci_text(m))
}

/// Would playing `m` on a readable position misuse the `chess` crate? Only legal
/// moves are played: `Board::make_move_new` trusts its move to be one.
pub open spec fn move_breaks_board(fen: Seq<char>, m: UciMove) -> bool {
    chess_fen(fen) is Some && !move_legal(fen, m)
}

/// The board after a move, by the `chess` crate.
pub open spec fn fen_after(fen: Seq<char>, m: UciMove) -> Option<Seq<char>> {
    chess_fen_after(fen, m.source as int, m.dest as int, promotion_index(m))
}

proof fn lemma_next_space_skip(s: Seq<char>, j: int, i: int)
    requires
        0 <= j <= i <= s.len(),
        forall|k: int| j <= k < i ==> s[k] != ' ',
    ensures
        next_space(s, j) == next_space(s, i),
    decreases i - j,
{
    if j < i {
        lemma_next_space_skip(s, j + 1, i);
    }
}

proof fn lemma_next_space_ge(s: Seq<char>, i: int)
    requires
        0 <= i <= s.len(),
    ensures
        i <= next_space(s, i) <= s.len(),
    decreases s.len() - i,
{
    if i < s.len() && s[i] != ' ' {
        lemma_next_space_ge(s, i + 1);
    }
}

proof fn lemma_layout_fails_on(s: Seq<char>, i: int, n: int)
    requires
        0 <= i <= n,
        !layout(s, i).ok,
    ensures
        !layout(s, n).ok,
    decreases n - i,
{
    if i < n {
        lemma_layout_fails_on(s, i, n - 1);
    }
}

proof fn lemma_layout_fails_after(s: Seq<char>, i: int)
    requires
        0 <= i < s.len(),
        forall|k: int| 0 <= k <= i ==> s[k] != ' ',
        !layout(s, i + 1).ok,
    ensures
        !fen_safe(s),
{
    lemma_next_space_skip(s, 0, i + 1);
    lemma_next_space_ge(s, i + 1);
    lemma_layout_fails_on(s, i + 1, next_space(s, 0));
}

/// Can `Board::from_str` read `fen` safely?
pub fn fen_is_safe(fen: &str) -> (r: bool)
    ensures
        r == fen_safe(fen@),
{
    let c = crate::text::chars_of(fen);
    let n: usize = c.len();
    let mut i: usize = 0;
    let mut slashes: u32 = 0;
    let mut width: u32 = 0;
    let mut has_white_king = false;
    let mut has_black_king = false;
    while i < n && c[i] != ' '
        invariant
            c@ == fen@,
            n == c@.len(),
            i <= n,
            forall|k: int| 0 <= k < i ==> c@[k] != ' ',
            layout(c@, i as int).ok,
            layout(c@, i as int).slashes == slashes as int,
            layout(c@, i as int).width == width as int,
            slashes <= 7,
            width <= 8,
            has_white_king == occurs_before(c@, 'K', i as int),
            has_black_king == occurs_before(c@, 'k', i as int),
        decreases n - i,
    {
        let ch = c[i];
        if ch == '/' {
            if slashes >= 7 {
                proof {
                    lemma_layout_fails_after(c@, i as int);
                }
                return false;
            }
            slashes = slashes + 1;
            width = 0;
        } else if '1' <= ch && ch <= '8' {
            let d: u32 = (ch as u32) - ('0' as u32);
            if width + d > 8 {
                proof {
                    lemma_layout_fails_after(c@, i as int);
                }
                return false;
            }
            width = width + d;
        } else {
            if width >= 8 {
                proof {
                    lemma_layout_fails_after(c@, i as int);
                }
                return false;
            }
            width = width + 1;
        }
        proof {
            assert(layout(c@, (i + 1) as int).ok);
            assert(ch == 'K' ==> c@[i as int] == 'K');
        }
        has_white_king = has_white_king || ch == 'K';
        has_black_king = has_black_king || ch == 'k';
        i = i + 1;
    }
    let n0 = i;
    proof {
        lemma_next_space_skip(c@, 0, n0 as int);
    }
    // the side field: the characters between the first and the second space
    let mut j: usize = if n0 < n { n0 + 1 } else { n0 };
    while j < n && c[j] != ' '
        invariant
            c@ == fen@,
            n == c@.len(),
            n0 <= j <= n,
            n0 < n ==> n0 + 1 <= j,
            forall|k: int| n0 + 1 <= k < j ==> c@[k] != ' ',
        decreases n - j,
    {
        j = j + 1;
    }
    proof {
        if n0 < n {
            lemma_next_space_skip(c@, n0 + 1, j as int);
        }
    }
    let white = n0 < n && j - n0 == 2 && (c[n0 + 1] == 'w' || c[n0 + 1] == 'W');
    let black = n0 < n && j - n0 == 2 && (c[n0 + 1] == 'b' || c[n0 + 1] == 'B');
    (!white || has_white_king) && (!black || has_black_king)
}

/// `ChessMove::from_str`, with the move's parts handed out as numbers.
#[verifier::external_body]
fn chess_move_from_str(s: &str) -> (r: Option<(u8, u8, Option<usize>)>)
    ensures
        match parse_uci_spec(s@) {
            Some(m) => r == Some((m.source, m.dest, match m.promotion {
                Some(p) => Some(piece_index(p) as usize),
                None => None,
            })),
            None => r is None,
        },
{
    chess::ChessMove::from_str(s).ok().map(
        |m| (m.get_source().to_int(), m.get_dest().to_int(), m.get_promotion().map(|p| p.to_index())),
    )
}

/// Reads a move in UCI notation.
pub fn parse_uci(s: &str) -> (r: Option<UciMove>)
    ensures
        r == parse_uci_spec(s@),
        r matches Some(m) ==> m.source < 64 && m.dest < 64,
{
    match chess_move_from_str(s) {
        Some((source, dest, promo)) => {
            let promotion = match promo {
                Some(i) => Some(PieceKind::from_index(i)),
                None => None,
            };
            Some(UciMove { source, dest, promotion })
        },
        None => None,
    }
}

/// `Board::from_str` followed by printing the board (`Display`). The crate prints
/// eight ranks of eight squares and the side to move as `w` or `b`, and a board it
/// accepts has one king of each colour, so what it prints can be read again safely.
#[verifier::external_body]
fn crate_normalize(fen: &str) -> (r: Option<String>)
    requires
        fen_safe(fen@),
    ensures
        match crate_fen(fen@) {
            Some(f) => r is Some && r->0@ == f && fen_safe(f),
            None => r is None,
        },
{
    chess::Board::from_str(fen).ok().map(|b| b.to_string())
}

/// `Board::piece_on`, numbered by `Piece::to_index`, on the board read from `fen`.
#[verifier::external_body]
fn crate_piece(fen: &str, square: u8) -> (r: Option<usize>)
    requires
        square < 64,
        fen_safe(fen@),
    ensures
        match crate_piece_on(fen@, square as int) {
            Some(i) => r == Some(i as usize) && 0 <= i < 6,
            None => r is None,
        },
{
    chess::Board::from_str(fen).ok()?.piece_on(chess::ALL_SQUARES[square as usize]).map(|p| p.to_index())
}

/// `Board::color_on`, numbered by `Color::to_index`, on the board read from `fen`.
#[verifier::external_body]
fn crate_color(fen: &str, square: u8) -> (r: Option<usize>)
    requires
        square < 64,
        fen_safe(fen@),
    ensures
        match crate_color_on(fen@, square as int) {
            Some(i) => r == Some(i as usize) && 0 <= i < 2,
            None => r is None,
        },
{
    chess::Board::from_str(fen).ok()?.color_on(chess::ALL_SQUARES[square as usize]).map(|c| c.to_index())
}

/// `Board::side_to_move`, numbered by `Color::to_index`, on the board read from `fen`.
#[verifier::external_body]
fn crate_side(fen: &str) -> (r: Option<usize>)
    requires
        fen_safe(fen@),
    ensures
        match crate_side_to_move(fen@) {
            Some(i) => r == Some(i as usize) && 0 <= i < 2 && crate_fen(fen@) is Some,
            None => r is None,
        },
{
    chess::Board::from_str(fen).ok().map(|b| b.side_to_move().to_index())
}

/// `MoveGen::new_legal` on the board read from `fen`, each move printed in UCI
/// notation; no moves for an unreadable text. The generator only promotes to a
/// knight, bishop, rook or queen, so every text is the UCI text of a move.
#[verifier::external_body]
fn crate_moves(fen: &str) -> (r: Vec<String>)
    requires
        fen_safe(fen@),
    ensures
        r@.len() == crate_legal_moves(fen@).len(),
        forall|i: int| 0 <= i < r@.len() ==> #[trigger] r@[i]@ == crate_legal_moves(fen@)[i],
        forall|i: int| 0 <= i < r@.len() ==> is_move_text(#[trigger] r@[i]@),
        crate_fen(fen@) is None ==> r@.len() == 0,
{
    match chess::Board::from_str(fen) {
        Ok(b) => chess::MoveGen::new_legal(&b).map(|m| m.to_string()).collect(),
        Err(_) => Vec::new(),
    }
}

/// The move as the `chess` crate builds it.
fn to_chess_move(m: UciMove) -> (r: (u8, u8, Option<usize>))
    ensures
        r == (m.source, m.dest, match m.promotion {
            Some(p) => Some(piece_index(p) as usize),
            None => None,
        }),
{
    let promotion = match m.promotion {
        Some(p) => Some(p.index()),
        None => None,
    };
    (m.source, m.dest, promotion)
}

/// `Board::make_move_new` on the board read from `fen`, printed as FEN text. The
/// move is a legal one (the crate does not check it). A legal move on a board the
/// crate accepts leaves both kings on the board, so the text printed for the new
/// board can be read again safely; and such a move always gives a board.
#[verifier::external_body]
fn crate_make_move(fen: &str, source: u8, dest: u8, promotion: Option<usize>) -> (r: Option<String>)
    requires
        source < 64,
        dest < 64,
        promotion matches Some(p) ==> p < 6,
        fen_safe(fen@),
        crate_fen(fen@) is Some ==> crate_legal_moves(fen@).contains(
            uci_text(UciMove { source, dest, promotion: match promotion {
                Some(p) => Some(piece_of_index(p as int)),
                None => None,
            } }),
        ),
    ensures
        match crate_fen_after(fen@, source as int, dest as int, match promotion {
            Some(p) => Some(p as int),
            None => None,
        }) {
            Some(f) => r is Some && r->0@ == f && crate_fen(fen@) is Some && fen_safe(f),
            None => r is None,
        },
        crate_fen(fen@) is Some ==> r is Some,
{
    let board = chess::Board::from_str(fen).ok()?;
    let m = chess::ChessMove::new(
        chess::ALL_SQUARES[source as usize],
        chess::ALL_SQUARES[dest as usize],
        promotion.map(|p| chess::ALL_PIECES[p]),
    );
    Some(board.make_move_new(m).to_string())
}

/// `Board::make_move_new` on the board read from `fen` with a legal move, then the
/// numbers of pawns, knights, bishops, rooks and queens of both colours on the new
/// board (`pieces(..).popcnt()`).
#[verifier::external_body]
fn crate_kinds(fen: &str, source: u8, dest: u8, promotion: Option<usize>) -> (r: Option<(u32, u32, u32, u32, u32)>)
    requires
        source < 64,
        dest < 64,
        promotion matches Some(p) ==> p < 6,
        fen_safe(fen@),
        crate_fen(fen@) is Some ==> crate_legal_moves(fen@).contains(
            uci_text(UciMove { source, dest, promotion: match promotion {
                Some(p) => Some(piece_of_index(p as int)),
                None => None,
            } }),
        ),
    ensures
        match crate_kinds_after(fen@, source as int, dest as int, match promotion {
            Some(p) => Some(p as int),
            None => None,
        }) {
            Some((p, n, b, r2, q)) => r == Some((p as u32, n as u32, b as u32, r2 as u32, q as u32)) && 0
                <= p <= 64 && 0 <= n <= 64 && 0 <= b <= 64 && 0 <= r2 <= 64 && 0 <= q <= 64,
            None => r is None,
        },
{
    let board = chess::Board::from_str(fen).ok()?;
    let m = chess::ChessMove::new(
        chess::ALL_SQUARES[source as usize],
        chess::ALL_SQUARES[dest as usize],
        promotion.map(|p| chess::ALL_PIECES[p]),
    );
    let after = board.make_move_new(m);
    Some((
        after.pieces(chess::Piece::Pawn).popcnt(),
        after.pieces(chess::Piece::Knight).popcnt(),
        after.pieces(chess::Piece::Bishop).popcnt(),
        after.pieces(chess::Piece::Rook).popcnt(),
        after.pieces(chess::Piece::Queen).popcnt(),
    ))
}

/// The position read from `fen`, as the `chess` crate prints it; `None` for a
/// text it refuses or cannot read safely.
pub(crate) fn normalize_fen(fen: &str) -> (r: Option<String>)
    ensures
        match chess_fen(fen@) {
            Some(f) => r is Some && r->0@ == f && fen_safe(f),
            None => r is None,
        },
{
    if fen_is_safe(fen) {
        crate_normalize(fen)
    } else {
        None
    }
}

/// The piece kind number on a square of the position read from `fen`.
pub(crate) fn piece_on(fen: &str, square: u8) -> (r: Option<usize>)
    requires
        square < 64,
    ensures
        match chess_piece_on(fen@, square as int) {
            Some(i) => r == Some(i as usize) && 0 <= i < 6,
            None => r is None,
        },
{
    if fen_is_safe(fen) {
        crate_piece(fen, square)
    } else {
        None
    }
}

/// The colour number of the piece on a square of the position read from `fen`.
pub(crate) fn color_on(fen: &str, square: u8) -> (r: Option<usize>)
    requires
        square < 64,
    ensures
        match chess_color_on(fen@, square as int) {
            Some(i) => r == Some(i as usize) && 0 <= i < 2,
            None => r is None,
        },
{
    if fen_is_safe(fen) {
        crate_color(fen, square)
    } else {
        None
    }
}

/// The side to move of the position read from `fen`.
pub(crate) fn side_to_move(fen: &str) -> (r: Option<usize>)
    ensures
        match chess_side_to_move(fen@) {
            Some(i) => r == Some(i as usize) && 0 <= i < 2 && chess_fen(fen@) is Some,
            None => r is None,
        },
{
    if fen_is_safe(fen) {
        crate_side(fen)
    } else {
        None
    }
}

/// The legal moves of the position read from `fen`, in UCI notation.
pub(crate) fn legal_moves(fen: &str) -> (r: Vec<String>)
    ensures
        r@.len() == chess_legal_moves(fen@).len(),
        forall|i: int| 0 <= i < r@.len() ==> #[trigger] r@[i]@ == chess_legal_moves(fen@)[i],
        forall|i: int| 0 <= i < r@.len() ==> is_move_text(#[trigger] r@[i]@),
        chess_fen(fen@) is None ==> r@.len() == 0,
{
    if fen_is_safe(fen) {
        crate_moves(fen)
    } else {
        Vec::new()
    }
}

/// Is `m` a legal move of the position read from `fen`?
pub fn is_legal_move(fen: &str, m: UciMove) -> (r: bool)
    requires
        m.source < 64,
        m.dest < 64,
    ensures
        r == move_legal(fen@, m),
{
    let moves = legal_moves(fen);
    let text = m.to_uci_string();
    let mut i: usize = 0;
    while i < moves.len()
        invariant
            i <= moves@.len(),
            moves@.len() == chess_legal_moves(fen@).len(),
            forall|k: int| 0 <= k < moves@.len() ==> #[trigger] moves@[k]@ == chess_legal_moves(fen@)[k],
            forall|k: int| 0 <= k < i ==> chess_legal_moves(fen@)[k] != uci_text(m),
            text@ == uci_text(m),
        decreases moves@.len() - i,
    {
        if crate::text::str_eq(moves[i].as_str(), text.as_str()) {
            assert(chess_legal_moves(fen@)[i as int] == uci_text(m));
            return true;
        }
        i = i + 1;
    }
    false
}

proof fn lemma_promotion_numbers(m: UciMove)
    ensures
        (match m.promotion {
            Some(p) => Some(piece_of_index(piece_index(p))),
            None => None::<PieceKind>,
        }) == m.promotion,
{
}

/// Plays a move on a position: the FEN text of the board after the move. A move
/// that is not legal on a readable position is not played.
pub fn play(fen: &str, m: UciMove) -> (r: Option<String>)
    requires
        m.source < 64,
        m.dest < 64,
        !move_breaks_board(fen@, m),
    ensures
        match fen_after(fen@, m) {
            Some(f) => r is Some && r->0@ == f && chess_fen(fen@) is Some && fen_safe(f),
            None => r is None,
        },
        chess_fen(fen@) is Some ==> r is Some,
{
    if !fen_is_safe(fen) {
        return None;
    }
    let (source, dest, promotion) = to_chess_move(m);
    proof {
        lemma_promotion_numbers(m);
        assert(UciMove { source, dest, promotion: match promotion {
            Some(p) => Some(piece_of_index(p as int)),
            None => None,
        } } == m);
    }
    crate_make_move(fen, source, dest, promotion)
}

/// The numbers of pawns, knights, bishops, rooks and queens on the board after a
/// move.
pub fn kinds_after(fen: &str, m: UciMove) -> (r: Option<(u32, u32, u32, u32, u32)>)
    requires
        m.source < 64,
        m.dest < 64,
        !move_breaks_board(fen@, m),
    ensures
        match chess_kinds_after(fen@, m.source as int, m.dest as int, promotion_index(m)) {
            Some((p, n, b, r2, q)) => r == Some((p as u32, n as u32, b as u32, r2 as u32, q as u32)) && 0
                <= p <= 64 && 0 <= n <= 64 && 0 <= b <= 64 && 0 <= r2 <= 64 && 0 <= q <= 64,
            None => r is None,
        },
{
    if !fen_is_safe(fen) {
        return None;
    }
    let (source, dest, promotion) = to_chess_move(m);
    proof {
        lemma_promotion_numbers(m);
        assert(UciMove { source, dest, promotion: match promotion {
            Some(p) => Some(piece_of_index(p as int)),
            None => None,
        } } == m);
    }
    crate_kinds(fen, source, dest, promotion)
}

/// The file letter of a square below 64.
pub fn file_of(square: u8) -> (c: char)
    requires
        square < 64,
    ensures
        c == file_char(square as int),
{
    match square % 8 {
        0 => 'a',
        1 => 'b',
        2 => 'c',
        3 => 'd',
        4 => 'e',
        5 => 'f',
        6 => 'g',
        _ => 'h',
    }
}

/// The rank digit of a square below 64.
pub fn rank_of(square: u8) -> (c: char)
    requires
        square < 64,
    ensures
        c == rank_char(square as int),
{
    match square / 8 {
        0 => '1',
        1 => '2',
        2 => '3',
        3 => '4',
        4 => '5',
        5 => '6',
        6 => '7',
        _ => '8',
    }
}

impl UciMove {
    /// The move in UCI notation, as the `chess` crate prints it.
    pub fn to_uci_string(&self) -> (s: String)
        requires
            self.source < 64,
            self.dest < 64,
        ensures
            s@ == uci_text(*self),
    {
        let mut s = String::new();
        push_char(&mut s, file_of(self.source));
        push_char(&mut s, rank_of(self.source));
        push_char(&mut s, file_of(self.dest));
        push_char(&mut s, rank_of(self.dest));
        match self.promotion {
            Some(p) => push_char(&mut s, piece_char(p)),
            None => {},
        }
        assert(s@ =~= uci_text(*self));
        s
    }
}

/// The lower-case letter of a piece kind.
pub fn piece_char(p: PieceKind) -> (c: char)
    ensures
        c == piece_letter(p),
{
    match p {
        PieceKind::Pawn => 'p',
        PieceKind::Knight => 'n',
        PieceKind::Bishop => 'b',
        PieceKind::Rook => 'r',
        PieceKind::Queen => 'q',
        PieceKind::King => 'k',
    }
}

/// Writing a well-formed move in UCI notation and reading it back gives the move.
pub proof fn lemma_uci_round_trip(m: UciMove)
    requires
        well_formed_move(m),
    ensures
        parse_uci_spec(uci_text(m)) == Some(m),
{
    let t = uci_text(m);
    assert(square_named(t[0], t[1]) == m.source as int);
    assert(square_named(t[2], t[3]) == m.dest as int);
}

/// Two moves with the same UCI text are the same move.
pub proof fn lemma_uci_text_injective(a: UciMove, b: UciMove)
    requires
        well_formed_move(a),
        well_formed_move(b),
        uci_text(a) == uci_text(b),
    ensures
        a == b,
{
    lemma_uci_round_trip(a);
    lemma_uci_round_trip(b);
}

} // verus!
