//! Jump-count estimation between star systems, with a memoizing coordinate client.
pub mod config;
pub mod edsm;
pub mod jump_calculator;
pub mod plugin;
pub mod text;
pub mod types;
