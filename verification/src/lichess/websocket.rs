//! The reconnection policy of the game socket.
use vstd::prelude::*;

verus! {

/// The state of the game socket.
#[derive(Debug, Clone, Copy, PartialEq, Eq, Structural)]
pub enum ConnectionState {
    Disconnected,
    Connecting,
    Connected,
    Reconnecting,
}

/// Why no further connection is attempted.
#[derive(Debug, Clone, Copy, PartialEq, Eq, Structural)]
pub enum ReconnectError {
    MaxAttemptsReached,
}

/// The socket's state and its reconnection attempts.
pub struct WebSocketHandler {
    url: String,
    state: ConnectionState,
    reconnect_attempts: u8,
    max_reconnect_attempts: u8,
}

/// `2^n`.
pub open spec fn pow2(n: nat) -> nat
    decreases n,
{
    if n == 0 {
        1
    } else {
        2 * pow2((n - 1) as nat)
    }
}

impl WebSocketHandler {
    #[verifier::type_invariant]
    spec fn attempts_bounded(&self) -> bool {
        self.max_reconnect_attempts == 10
    }

    /// The address of the socket.
    pub closed spec fn spec_url(&self) -> Seq<char> {
        self.url@
    }

    /// The state of the socket.
    pub closed spec fn spec_state(&self) -> ConnectionState {
        self.state
    }

    /// The reconnection attempts since the last successful connection.
    pub closed spec fn attempts(&self) -> nat {
        self.reconnect_attempts as nat
    }

    /// A handler for the socket at `url`, not connected, no attempts made, at most
    /// ten reconnections allowed.
    pub fn new(url: String) -> (h: WebSocketHandler)
        ensures
            h.spec_url() == url@,
            h.spec_state() == ConnectionState::Disconnected,
            h.attempts() == 0,
    {
        WebSocketHandler {
            url,
            state: ConnectionState::Disconnected,
            reconnect_attempts: 0,
            max_reconnect_attempts: 10,
        }
    }

    /// The address of the socket.
    pub fn url(&self) -> (u: &String)
        ensures
            u@ == self.spec_url(),
    {
        &self.url
    }

    /// Is the socket connected?
    pub fn is_connected(&self) -> (r: bool)
        ensures
            r == (self.spec_state() == ConnectionState::Connected),
    {
        self.state == ConnectionState::Connected
    }

    /// The state of the socket.
    pub fn reconnect_attempts(&self) -> (a: u8)
        ensures
            a == self.attempts(),
    {
        self.reconnect_attempts
    }

    pub fn state(&self) -> (s: ConnectionState)
        ensures
            s == self.spec_state(),
    {
        self.state
    }

    /// A connection is being opened.
    pub fn start_connecting(&mut self)
        ensures
            final(self).spec_state() == ConnectionState::Connecting,
            final(self).attempts() == old(self).attempts(),
            final(self).spec_url() == old(self).spec_url(),
    {
        proof {
            use_type_invariant(&*self);
        }
        self.state = ConnectionState::Connecting;
    }

    /// The connection is open: the attempts start over.
    pub fn connection_established(&mut self)
        ensures
            final(self).spec_state() == ConnectionState::Connected,
            final(self).attempts() == 0,
            final(self).spec_url() == old(self).spec_url(),
    {
        proof {
            use_type_invariant(&*self);
        }
        self.state = ConnectionState::Connected;
        self.reconnect_attempts = 0;
    }

    /// The connection was lost or closed.
    pub fn connection_lost(&mut self)
        ensures
            final(self).spec_state() == ConnectionState::Disconnected,
            final(self).attempts() == old(self).attempts(),
            final(self).spec_url() == old(self).spec_url(),
    {
        proof {
            use_type_invariant(&*self);
        }
        self.state = ConnectionState::Disconnected;
    }

    /// Counts one more reconnection attempt. Past the tenth it refuses; otherwise
    /// the socket is reconnecting and the delay before the attempt doubles with
    /// each attempt: `500 * 2^attempts` milliseconds.
    pub fn begin_reconnect(&mut self) -> (r: Result<u64, ReconnectError>)
        requires
            old(self).attempts() < 255,
        ensures
            final(self).attempts() == old(self).attempts() + 1,
            final(self).spec_url() == old(self).spec_url(),
            match r {
                Ok(delay) => final(self).attempts() <= 10 && delay == 500 * pow2(final(self).attempts())
                    && final(self).spec_state() == ConnectionState::Reconnecting,
                Err(e) => e == ReconnectError::MaxAttemptsReached && final(self).attempts() > 10
                    && final(self).spec_state() == old(self).spec_state(),
            },
    {
        proof {
            use_type_invariant(&*self);
        }
        self.reconnect_attempts = self.reconnect_attempts + 1;
        if self.reconnect_attempts > self.max_reconnect_attempts {
            return Err(ReconnectError::MaxAttemptsReached);
        }
        self.state = ConnectionState::Reconnecting;
        let mut delay: u64 = 500;
        let mut i: u8 = 0;
        proof {
            reveal_with_fuel(pow2, 11);
            assert(pow2(10) == 1024);
            lemma_pow2_monotone(0, 10);
        }
        while i < self.reconnect_attempts
            invariant
                i <= self.reconnect_attempts <= 10,
                delay == 500 * pow2(i as nat),
                500 * pow2(i as nat) <= 500 * pow2(10),
                pow2(10) == 1024,
            decreases self.reconnect_attempts - i,
        {
            proof {
                lemma_pow2_monotone((i + 1) as nat, 10);
                assert(pow2((i + 1) as nat) == 2 * pow2(i as nat));
            }
            delay = delay * 2;
            i = i + 1;
        }
        Ok(delay)
    }
}

proof fn lemma_pow2_monotone(a: nat, b: nat)
    requires
        a <= b,
    ensures
        pow2(a) <= pow2(b),
    decreases b,
{
    if a < b {
        lemma_pow2_monotone(a, (b - 1) as nat);
    }
}

} // verus!
