//! The connection to a Lichess game.
pub mod events;
pub mod websocket;

use vstd::prelude::*;
use crate::text::append_str;

verus! {

/// The game the program plays and the last ply the server acknowledged.
pub struct LichessClient {
    pub game_id: Option<String>,
    pub current_ack: u32,
}

/// The address of a game's socket.
pub open spec fn game_socket_url(game_id: Seq<char>) -> Seq<char> {
    "wss://socket.lichess.org/play/"@ + game_id + "/v6"@
}

impl LichessClient {
    /// No game, nothing acknowledged.
    pub fn new() -> (c: LichessClient)
        ensures
            c.game_id is None,
            c.current_ack == 0,
    {
        LichessClient { game_id: None, current_ack: 0 }
    }

    /// Starts on a game: records it, resets the acknowledgements, and gives the
    /// address of its socket.
    pub fn connect_to_game(&mut self, game_id: String) -> (url: String)
        ensures
            final(self).game_id matches Some(g) && g@ == game_id@,
            final(self).current_ack == 0,
            url@ == game_socket_url(game_id@),
    {
        let mut url = String::from_str("wss://socket.lichess.org/play/");
        append_str(&mut url, game_id.as_str());
        append_str(&mut url, "/v6");
        self.game_id = Some(game_id);
        self.current_ack = 0;
        url
    }

    /// Records the last acknowledged ply.
    pub fn update_ack(&mut self, ack: u32)
        ensures
            final(self).current_ack == ack,
            final(self).game_id == old(self).game_id,
    {
        self.current_ack = ack;
    }

    /// The last acknowledged ply.
    pub fn get_ack(&self) -> (a: u32)
        ensures
            a == self.current_ack,
    {
        self.current_ack
    }
}

impl Default for LichessClient {
    fn default() -> (c: Self)
        ensures
            c.game_id is None,
            c.current_ack == 0,
    {
        LichessClient::new()
    }
}

} // verus!
