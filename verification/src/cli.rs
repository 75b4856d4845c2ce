//! Command-line arguments, as the library reads them.
use vstd::prelude::*;

verus! {

/// The command-line arguments of the program. The parser that fills them lives in
/// the application; the library only reads the values.
pub struct Args {
    /// Engine to use
    pub engine: String,
    /// Enable auto-play mode
    pub auto: bool,
    /// Configuration preset (7.5s, 15s, 30s)
    pub config_mode: String,
    /// Path to config file
    pub config: String,
    /// Enable panic mode
    pub panic: bool,
    /// Enable human timing
    pub human_mode: bool,
    /// Port for browser bridge WebSocket server
    pub bridge_port: u16,
    /// Enable auto-rematch
    pub auto_rematch: bool,
}

} // verus!
