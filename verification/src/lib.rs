//! Bookkeeping for capture-the-flag workspaces: which workspace and challenge
//! are active, how that cursor is stored and switched, and a log that can take
//! back the last change once.
//!
//! The workspace records, the context file and the log are held as plain
//! values, so every rule is stated over them and proved. Reading and writing
//! the files behind them is left to the caller.
pub mod seqs;
pub mod text;
pub mod effects;
pub mod settings;
pub mod ctf;
pub mod db;
pub mod context;
pub mod undo;
pub mod commands;
pub mod help;
pub mod util;
pub mod autocompletions;

