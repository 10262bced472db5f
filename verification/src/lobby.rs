//! The handshake that opens a connection, and the pairing of connections
//! into sessions.

use crate::connection::{ReadError, WriteError};
use crate::game::Game;
use crate::server::{OnlineConnection, Player, Server, State, PLAYER_ONE_ID, PLAYER_TWO_ID};
use vstd::prelude::*;
use vstd::std_specs::convert::FromSpecImpl;

verus! {

/// The identifier that both ends of a connection must name.
pub const GAME_ID: u16 = 12345;

/// The handshake: the first message on a connection, which names the game
/// that the sender wants to join.
#[derive(Debug, Copy, Clone, PartialEq, Eq, Structural)]
pub struct ConnectionRequest {
    pub game_id: u16,
}

/// Why no connection to a game came about.
#[derive(Debug)]
pub enum ConnectError {
    /// The stream could not be opened.
    StreamError(std::io::Error),
    /// The handshake could not be sent.
    WriteError(WriteError),
}

impl From<std::io::Error> for ConnectError {
    fn from(error: std::io::Error) -> (result: ConnectError) {
        ConnectError::StreamError(error)
    }
}

impl FromSpecImpl<std::io::Error> for ConnectError {
    open spec fn obeys_from_spec() -> bool {
        true
    }

    open spec fn from_spec(error: std::io::Error) -> ConnectError {
        ConnectError::StreamError(error)
    }
}

impl From<WriteError> for ConnectError {
    fn from(error: WriteError) -> (result: ConnectError) {
        ConnectError::WriteError(error)
    }
}

impl FromSpecImpl<WriteError> for ConnectError {
    open spec fn obeys_from_spec() -> bool {
        true
    }

    open spec fn from_spec(error: WriteError) -> ConnectError {
        ConnectError::WriteError(error)
    }
}

/// Whether what was read as the handshake of a new connection admits it: a
/// request was read, and it names `GAME_ID`.
pub open spec fn admits(request: Result<ConnectionRequest, ReadError>) -> bool {
    request matches Ok(r) && r.game_id == GAME_ID
}

/// The connection that waits in the lobby after a new one has come, given
/// the one that waited before.
pub open spec fn waiting_after<C>(
    waiting: Option<C>,
    connection: C,
    request: Result<ConnectionRequest, ReadError>,
) -> Option<C> {
    if !admits(request) {
        waiting
    } else if waiting is None {
        Some(connection)
    } else {
        None
    }
}

/// Whether the players of `server` are the first player on `connection_one`
/// and the second player on `connection_two`.
pub open spec fn seats<C>(
    server: Server<OnlineConnection<C>>,
    connection_one: C,
    connection_two: C,
) -> bool {
    &&& server.player_one_of().id_of() == PLAYER_ONE_ID
    &&& server.player_one_of().connection_of() == connection_one
    &&& server.player_two_of().id_of() == PLAYER_TWO_ID
    &&& server.player_two_of().connection_of() == connection_two
}

/// What the lobby makes of a new connection.
#[derive(Debug)]
pub enum Admission<C> {
    /// The handshake failed or names another game: the connection is handed
    /// back to be shut down, and the lobby waits on as before.
    Rejected { connection: C },
    /// The connection is the first player's: the lobby waits for the second.
    Waiting,
    /// The connection is the second player's: the session is ready.
    Ready { server: Server<OnlineConnection<C>> },
}

/// Pairs connections into sessions. It holds the first player's connection
/// while it waits for the second.
#[derive(Debug)]
pub struct Lobby<C> {
    waiting: Option<C>,
}

impl<C> Lobby<C> {
    /// The connection of the first player, while the lobby waits for the
    /// second.
    pub closed spec fn waiting_of(&self) -> Option<C> {
        self.waiting
    }

    /// A lobby in which nobody waits.
    pub fn new() -> (lobby: Lobby<C>)
        ensures
            lobby.waiting_of() is None,
    {
        Lobby { waiting: None }
    }

    /// The session of the players behind these two connections: a game of
    /// tic-tac-toe that has not begun.
    pub fn set_up_online_server(connection_one: C, connection_two: C) -> (server: Server<
        OnlineConnection<C>,
    >)
        ensures
            server.state_of() == State::PreInitialise,
            server.game_of() == Game::TicTacToe,
            seats(server, connection_one, connection_two),
    {
        let player_one = Player::new_player_one(connection_one);
        let player_two = Player::new_player_two(connection_two);
        Server::<OnlineConnection<C>>::new(player_one, player_two, Game::TicTacToe)
    }

    /// Takes a new connection, with what was read from it as its handshake.
    ///
    /// A connection whose handshake does not admit it is handed back, and
    /// the lobby stays as it was. One that is admitted becomes the first
    /// player's when nobody waits, and otherwise completes a session with
    /// the connection that waited, which leaves the lobby empty again.
    pub fn get_connection(
        &mut self,
        connection: C,
        request: Result<ConnectionRequest, ReadError>,
    ) -> (admission: Admission<C>)
        ensures
            final(self).waiting_of() == waiting_after(old(self).waiting_of(), connection, request),
            !admits(request) ==> admission == (Admission::Rejected { connection }) && *final(self)
                == *old(self),
            admits(request) && old(self).waiting_of() is None ==> admission is Waiting
                && final(self).waiting_of() == Some(connection),
            admits(request) && old(self).waiting_of() is Some ==> final(self).waiting_of() is None
                && admission is Ready && ({
                let server = admission->server;
                &&& server.state_of() == State::PreInitialise
                &&& server.game_of() == Game::TicTacToe
                &&& seats(server, old(self).waiting_of().unwrap(), connection)
            }),
    {
        let admitted = match request {
            Ok(ConnectionRequest { game_id }) => game_id == GAME_ID,
            Err(_) => false,
        };
        if !admitted {
            return Admission::Rejected { connection };
        }
        match self.waiting.take() {
            None => {
                self.waiting = Some(connection);
                Admission::Waiting
            },
            Some(first) => Admission::Ready {
                server: Self::set_up_online_server(first, connection),
            },
        }
    }
}

/// The handshake that a participant sends to join the game.
pub fn connect_to_game() -> (request: ConnectionRequest)
    ensures
        request == (ConnectionRequest { game_id: GAME_ID }),
{
    ConnectionRequest { game_id: GAME_ID }
}

/// A connection whose handshake fails or names another game never becomes a
/// participant, and the lobby goes on as if it had not come: whatever the
/// next connection is, the lobby does with it what it would have done
/// before.
pub proof fn lemma_rejection_changes_nothing<C>(
    waiting: Option<C>,
    rejected: C,
    request: Result<ConnectionRequest, ReadError>,
    next: C,
    next_request: Result<ConnectionRequest, ReadError>,
)
    requires
        !admits(request),
    ensures
        waiting_after(waiting, rejected, request) == waiting,
        waiting_after(waiting_after(waiting, rejected, request), next, next_request)
            == waiting_after(waiting, next, next_request),
{
}

} // verus!
