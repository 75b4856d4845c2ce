//! Messages exchanged with the browser extension.
use vstd::prelude::*;

verus! {

/// Message types sent from the browser extension to the program.
pub enum BrowserMessage {
    GameState(GameStateMessage),
    RematchAvailable { game_id: String },
    RematchAccepted { game_id: String },
    NewGame { game_id: String },
}

/// Game state information from the browser.
pub struct GameStateMessage {
    pub game_id: String,
    pub fen: String,
    pub my_color: Color,
    pub is_my_turn: bool,
    pub white_clock_ms: u64,
    pub black_clock_ms: u64,
    pub moves: Vec<String>,
    pub game_ended: bool,
    pub result: Option<String>,
}

/// Message types sent from the program to the browser extension.
pub enum RustMessage {
    MakeMove { uci: String },
    AcceptRematch,
    DeclineRematch,
}

/// A side of the board.
#[derive(Debug, Clone, Copy, PartialEq, Eq, Structural)]
pub enum Color {
    White,
    Black,
}

impl Color {
    /// Is this the white side?
    pub fn is_white(&self) -> (r: bool)
        ensures
            r == (*self == Color::White),
    {
        match self {
            Color::White => true,
            Color::Black => false,
        }
    }
}

} // verus!
