pub mod board;
pub mod bridge;
pub mod chess_logic;
pub mod cli;
pub mod config;
pub mod engine;
pub mod game_manager;
pub mod lichess;
pub mod move_selector;
pub mod rng;
pub mod text;
pub mod timing;
pub mod ui;
