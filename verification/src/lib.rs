//! A session of a turn-based game for two: the frames that carry messages
//! over a connection, the lobby that pairs connections, the state machine
//! that runs a session, and tic-tac-toe as the game.
//!
//! Nothing here touches a socket. Each part takes what was read and says what
//! to write: the caller does the reading, the writing and the waiting.

pub mod client;
pub mod connection;
pub mod game;
pub mod lobby;
pub mod menu;
pub mod server;
pub mod text;
pub mod tic_tac_toe;
