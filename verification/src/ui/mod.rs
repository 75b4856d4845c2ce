pub mod tui;

pub use tui::{TerminalUI, UICommand};
