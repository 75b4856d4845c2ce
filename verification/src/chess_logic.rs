//! The state of one game: the position, the moves played and the bookkeeping
//! around our own moves.
use vstd::prelude::*;
use crate::board::{
    chess_fen, chess_kinds_after, chess_piece_on, chess_side_to_move, fen_after, initial_fen,
    is_legal_move, kinds_after, move_breaks_board, normalize_fen, parse_uci, parse_uci_spec,
    piece_on, play, promotion_index, side_to_move, UciMove,
};
use crate::bridge::protocol::Color;

verus! {

/// Why a position or a move was refused.
#[derive(Debug, Clone, Copy, PartialEq, Eq, Structural)]
pub enum ChessError {
    /// The `chess` crate does not read the FEN text.
    InvalidFen,
    /// The text is not a move in UCI notation.
    InvalidMove,
    /// The `chess` crate no longer reads the stored position (only after a move
    /// that left the board in a state its FEN reader refuses).
    UnreadableBoard,
}

/// The state of one game.
pub struct GameState {
    /// The position, as the FEN text the `chess` crate prints for its board.
    pub board: String,
    pub move_history: Vec<UciMove>,
    pub my_color: Option<Color>,
    pub game_ended: bool,
    pub pending_move: Option<String>,
    pub last_move_acked: bool,
    pub current_ply: u32,
}

/// The number the `chess` crate gives a colour.
pub open spec fn color_index(c: Color) -> int {
    match c {
        Color::White => 0,
        Color::Black => 1,
    }
}

/// Is there a piece on `square` of the position?
pub open spec fn occupied(fen: Seq<char>, square: int) -> bool {
    chess_piece_on(fen, square) is Some
}

/// The number of occupied squares among the first `n`.
pub open spec fn count_occupied(fen: Seq<char>, n: int) -> int
    decreases n,
{
    if n <= 0 {
        0
    } else {
        count_occupied(fen, n - 1) + if occupied(fen, n - 1) { 1int } else { 0int }
    }
}

/// A new game in the initial position.
pub open spec fn fresh_game(g: GameState) -> bool {
    &&& g.board@ == initial_fen()
    &&& g.move_history@ == Seq::<UciMove>::empty()
    &&& g.my_color is None
    &&& !g.game_ended
    &&& g.pending_move is None
    &&& !g.last_move_acked
    &&& g.current_ply == 0
}

/// Would playing `uci` on `fen` make the `chess` crate fail?
pub open spec fn uci_breaks_board(fen: Seq<char>, uci: Seq<char>) -> bool {
    match parse_uci_spec(uci) {
        Some(m) => move_breaks_board(fen, m),
        None => false,
    }
}

/// Is it our turn on this position?
pub open spec fn my_turn(fen: Seq<char>, my_color: Option<Color>) -> bool {
    match my_color {
        Some(c) => chess_side_to_move(fen) == Some(color_index(c)),
        None => false,
    }
}

/// Does `uci` take a piece (is its destination occupied)?
pub open spec fn captures(fen: Seq<char>, uci: Seq<char>) -> bool {
    match parse_uci_spec(uci) {
        Some(m) => occupied(fen, m.dest as int),
        None => false,
    }
}

/// Is the material on the board too little for either side to mate: kings and at
/// most one knight or bishop, no pawns, rooks or queens?
pub open spec fn insufficient_material(pawns: int, knights: int, bishops: int, rooks: int, queens: int) -> bool {
    pawns == 0 && rooks == 0 && queens == 0 && knights + bishops <= 1
}

/// Does `uci` leave too little material for either side to mate?
pub open spec fn draws_by_material(fen: Seq<char>, uci: Seq<char>) -> bool {
    match parse_uci_spec(uci) {
        Some(m) => match chess_kinds_after(fen, m.source as int, m.dest as int, promotion_index(m)) {
            Some((p, n, b, r, q)) => insufficient_material(p, n, b, r, q),
            None => false,
        },
        None => false,
    }
}

/// The game after `m` was played, reaching position `f`.
pub open spec fn game_after_move(old: GameState, new: GameState, m: UciMove, f: Seq<char>) -> bool {
    &&& new.board@ == f
    &&& new.move_history@ == old.move_history@.push(m)
    &&& new.current_ply == old.current_ply + 1
    &&& new.my_color == old.my_color
    &&& new.game_ended == old.game_ended
    &&& new.pending_move == old.pending_move
    &&& new.last_move_acked == old.last_move_acked
}

/// The same game.
pub open spec fn same_game(a: GameState, b: GameState) -> bool {
    &&& a.board@ == b.board@
    &&& a.move_history@ == b.move_history@
    &&& a.current_ply == b.current_ply
    &&& a.my_color == b.my_color
    &&& a.game_ended == b.game_ended
    &&& a.pending_move == b.pending_move
    &&& a.last_move_acked == b.last_move_acked
}

impl GameState {
    /// A new game in the initial position.
    pub fn new() -> (g: GameState)
        ensures
            fresh_game(g),
    {
        GameState {
            board: String::from_str("rnbqkbnr/pppppppp/8/8/8/8/PPPPPPPP/RNBQKBNR w KQkq - 0 1"),
            move_history: Vec::new(),
            my_color: None,
            game_ended: false,
            pending_move: None,
            last_move_acked: false,
            current_ply: 0,
        }
    }

    /// A new game in the position that `fen` describes.
    pub fn from_fen(fen: &str) -> (r: Result<GameState, ChessError>)
        ensures
            match chess_fen(fen@) {
                Some(f) => r matches Ok(g) && g.board@ == f && g.move_history@.len() == 0
                    && g.my_color is None && !g.game_ended && g.pending_move is None
                    && !g.last_move_acked && g.current_ply == 0,
                None => r == Err::<GameState, ChessError>(ChessError::InvalidFen),
            },
    {
        match normalize_fen(fen) {
            Some(board) => Ok(
                GameState {
                    board,
                    move_history: Vec::new(),
                    my_color: None,
                    game_ended: false,
                    pending_move: None,
                    last_move_acked: false,
                    current_ply: 0,
                },
            ),
            None => Err(ChessError::InvalidFen),
        }
    }

    /// Plays the move written `uci` on the board and records it.
    pub fn apply_move(&mut self, uci: &str) -> (r: Result<(), ChessError>)
        requires
            !uci_breaks_board(old(self).board@, uci@),
            parse_uci_spec(uci@) is Some ==> old(self).current_ply < u32::MAX,
        ensures
            match parse_uci_spec(uci@) {
                None => r == Err::<(), ChessError>(ChessError::InvalidMove) && same_game(
                    *old(self),
                    *final(self),
                ),
                Some(m) => match fen_after(old(self).board@, m) {
                    Some(f) => r is Ok && game_after_move(*old(self), *final(self), m, f),
                    None => r == Err::<(), ChessError>(ChessError::UnreadableBoard) && same_game(
                        *old(self),
                        *final(self),
                    ),
                },
            },
    {
        let m = match parse_uci(uci) {
            Some(m) => m,
            None => return Err(ChessError::InvalidMove),
        };
        match play(self.board.as_str(), m) {
            Some(f) => {
                self.board = f;
                self.move_history.push(m);
                self.current_ply = self.current_ply + 1;
                Ok(())
            },
            None => Err(ChessError::UnreadableBoard),
        }
    }

    /// The position in FEN notation.
    pub fn fen(&self) -> (s: String)
        ensures
            s@ == self.board@,
    {
        self.board.clone()
    }

    /// Is it our turn to move?
    pub fn is_my_turn(&self) -> (r: bool)
        ensures
            r == my_turn(self.board@, self.my_color),
    {
        match self.my_color {
            Some(c) => {
                let want: usize = match c {
                    Color::White => 0,
                    Color::Black => 1,
                };
                match side_to_move(self.board.as_str()) {
                    Some(s) => {
                        assert(color_index(c) == want as int);
                        s == want
                    },
                    None => false,
                }
            },
            None => false,
        }
    }

    /// The number of pieces on the board.
    pub fn piece_count(&self) -> (n: u8)
        ensures
            n as int == count_occupied(self.board@, 64),
    {
        let mut count: u8 = 0;
        let mut i: u8 = 0;
        while i < 64
            invariant
                i <= 64,
                count as int == count_occupied(self.board@, i as int),
                count <= i,
            decreases 64 - i,
        {
            if piece_on(self.board.as_str(), i).is_some() {
                count = count + 1;
            }
            i = i + 1;
        }
        count
    }

    /// Does the move written `uci` land on an occupied square?
    pub fn is_capture(&self, uci: &str) -> (r: bool)
        ensures
            r == captures(self.board@, uci@),
    {
        match parse_uci(uci) {
            Some(m) => {
                proof {
                    assert(m.dest < 64);
                }
                piece_on(self.board.as_str(), m.dest).is_some()
            },
            None => false,
        }
    }

    /// Would the move written `uci` leave too little material for either side to
    /// mate (a draw by insufficient material)?
    pub fn would_draw(&self, uci: &str) -> (r: bool)
        requires
            !uci_breaks_board(self.board@, uci@),
        ensures
            r == draws_by_material(self.board@, uci@),
    {
        match parse_uci(uci) {
            Some(m) => match kinds_after(self.board.as_str(), m) {
                Some((pawns, knights, bishops, rooks, queens)) => pawns == 0 && rooks == 0 && queens == 0
                    && knights + bishops <= 1,
                None => false,
            },
            None => false,
        }
    }

    /// Can the move written `uci` be played (or refused) without misusing the
    /// `chess` crate: is it legal, or is there no readable position or no move?
    pub fn can_play(&self, uci: &str) -> (r: bool)
        ensures
            r == !uci_breaks_board(self.board@, uci@),
    {
        match parse_uci(uci) {
            Some(m) => match normalize_fen(self.board.as_str()) {
                None => true,
                Some(_) => is_legal_move(self.board.as_str(), m),
            },
            None => true,
        }
    }

    /// Back to a new game in the initial position.
    pub fn reset(&mut self)
        ensures
            fresh_game(*final(self)),
    {
        *self = GameState::new();
    }

    /// Records which side we play.
    pub fn set_my_color(&mut self, color: Color)
        ensures
            final(self).my_color == Some(color),
            final(self).board == old(self).board,
            final(self).move_history == old(self).move_history,
            final(self).game_ended == old(self).game_ended,
            final(self).pending_move == old(self).pending_move,
            final(self).last_move_acked == old(self).last_move_acked,
            final(self).current_ply == old(self).current_ply,
    {
        self.my_color = Some(color);
    }
}

impl Default for GameState {
    fn default() -> (g: Self)
        ensures
            fresh_game(g),
    {
        GameState::new()
    }
}

/// Playing a move that the `chess` crate accepts records exactly that move, one
/// ply later; a refused move changes nothing.
pub proof fn lemma_apply_move_records(old: GameState, new: GameState, m: UciMove, f: Seq<char>)
    requires
        game_after_move(old, new, m, f),
    ensures
        new.move_history@.len() == old.move_history@.len() + 1,
        new.move_history@.last() == m,
        new.current_ply == old.current_ply + 1,
{
}

} // verus!
