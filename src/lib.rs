//! Replay of a recorded chess game ply by ply, and the text protocol spoken
//! with a UCI analysis engine while it streams its search results.

pub mod board;
pub mod replay;
pub mod text;
pub mod protocol;
pub mod session;
pub mod output;
pub mod position;
