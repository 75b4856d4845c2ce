pub mod protocol;

pub use protocol::{BrowserMessage, Color, GameStateMessage, RustMessage};
