//! Messages of the Lichess game socket, and the events the program reacts to.
use vstd::prelude::*;

verus! {

/// The clock part of a move message, as the program reads it: the lag the
/// server measured, in centiseconds.
pub struct ClockData {
    pub lag: Option<u32>,
}

/// A move played in the game.
pub struct MoveData {
    pub uci: String,
    pub fen: String,
    pub ply: u32,
    pub clock: Option<ClockData>,
    pub status: Option<String>,
    pub winner: Option<String>,
}

/// The end of a game.
pub struct EndData {
    pub status: String,
    pub winner: Option<String>,
}

/// What happened on the game socket.
pub enum LichessEvent {
    Move(MoveData),
    Ack,
    GameEnd(EndData),
    Reload,
    Resync,
    Connected,
    Disconnected,
    Error(String),
}

/// The messages the game socket sends.
pub enum LichessMessage {
    Move(MoveData),
    Ack,
    EndData(EndData),
    Reload,
    Resync,
}

/// The event a socket message stands for.
pub open spec fn event_of_message(m: LichessMessage) -> LichessEvent {
    match m {
        LichessMessage::Move(d) => LichessEvent::Move(d),
        LichessMessage::Ack => LichessEvent::Ack,
        LichessMessage::EndData(d) => LichessEvent::GameEnd(d),
        LichessMessage::Reload => LichessEvent::Reload,
        LichessMessage::Resync => LichessEvent::Resync,
    }
}

impl LichessEvent {
    /// The event a socket message stands for.
    pub fn from_message(m: LichessMessage) -> (e: LichessEvent)
        ensures
            e == event_of_message(m),
    {
        match m {
            LichessMessage::Move(d) => LichessEvent::Move(d),
            LichessMessage::Ack => LichessEvent::Ack,
            LichessMessage::EndData(d) => LichessEvent::GameEnd(d),
            LichessMessage::Reload => LichessEvent::Reload,
            LichessMessage::Resync => LichessEvent::Resync,
        }
    }
}

/// A move sent to the game socket.
pub struct MoveRequest {
    pub t: String,
    pub d: MoveRequestData,
}

/// The body of a move sent to the game socket.
pub struct MoveRequestData {
    /// UCI move
    pub u: String,
    /// Ack number
    pub a: u32,
    /// Berserked (0 or 1)
    pub b: u8,
    /// Lag claim in milliseconds
    pub l: u32,
}

impl MoveRequest {
    /// A `move` message carrying the move, the last acknowledged ply, whether the
    /// player berserked (1) or not (0), and the lag claimed.
    pub fn new(uci: String, ack: u32, berserked: bool, lag_claim: u32) -> (r: MoveRequest)
        ensures
            r.t@ == "move"@,
            r.d.u@ == uci@,
            r.d.a == ack,
            r.d.b == if berserked { 1u8 } else { 0u8 },
            r.d.l == lag_claim,
    {
        MoveRequest {
            t: String::from_str("move"),
            d: MoveRequestData { u: uci, a: ack, b: if berserked { 1 } else { 0 }, l: lag_claim },
        }
    }
}

} // verus!
