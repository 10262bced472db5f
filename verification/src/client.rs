//! The client: what it does about each message of the server and each
//! event of its game.

use crate::connection::{frame_of, json_of_bytes, write_event, WriteError};
use crate::game::{Game, GameClient, GameClientEvent};
use crate::server::{OutgoingEvent, OutgoingEventView, SessionError};
use crate::tic_tac_toe::TicTacToeClient;
use vstd::prelude::*;
use vstd::std_specs::convert::FromSpecImpl;

verus! {

/// Marks the types that say where a client sits.
pub trait ClientType {

}

/// A client at which both players sit.
#[derive(Debug, Copy, Clone, PartialEq, Eq, Structural)]
pub struct LocalClient {}

impl ClientType for LocalClient {

}

/// A client at which the player `id` sits.
#[derive(Debug, Copy, Clone, PartialEq, Eq, Structural)]
pub struct OnlineClient {
    pub id: u8,
}

impl ClientType for OnlineClient {

}

/// What a client is handed to work on: a message of the server, or an event
/// that its game emitted.
#[derive(Debug, PartialEq, Eq)]
pub enum IncomingEvent {
    Server(OutgoingEvent),
    Game(GameClientEvent<Vec<u8>>),
}

/// An `IncomingEvent` with its payloads as sequences of bytes.
pub enum IncomingEventView {
    Server(OutgoingEventView),
    Game(GameClientEvent<Seq<u8>>),
}

impl View for IncomingEvent {
    type V = IncomingEventView;

    open spec fn view(&self) -> IncomingEventView {
        match *self {
            IncomingEvent::Server(event) => IncomingEventView::Server(event@),
            IncomingEvent::Game(event) => IncomingEventView::Game(event@),
        }
    }
}

/// Why a client could not go on.
#[derive(Debug)]
pub enum ClientError {
    /// A message for the server could not be sent.
    Write(WriteError),
    /// The user could not be read from or written to.
    Read(std::io::Error),
}

impl From<WriteError> for ClientError {
    fn from(error: WriteError) -> (result: ClientError) {
        ClientError::Write(error)
    }
}

impl FromSpecImpl<WriteError> for ClientError {
    open spec fn obeys_from_spec() -> bool {
        true
    }

    open spec fn from_spec(error: WriteError) -> ClientError {
        ClientError::Write(error)
    }
}

impl From<std::io::Error> for ClientError {
    fn from(error: std::io::Error) -> (result: ClientError) {
        ClientError::Read(error)
    }
}

impl FromSpecImpl<std::io::Error> for ClientError {
    open spec fn obeys_from_spec() -> bool {
        true
    }

    open spec fn from_spec(error: std::io::Error) -> ClientError {
        ClientError::Read(error)
    }
}

/// What the client asks for in answer to an event.
#[derive(Debug, PartialEq, Eq)]
pub enum Action {
    /// Show `text` to the user.
    Show { text: String },
    /// Show `text` to the user, then shut the connection down.
    Terminate { text: String },
    /// Hand `event` to the game.
    ForwardToGame { event: Vec<u8> },
    /// Write `frame` to the connection.
    Send { frame: Vec<u8> },
    /// Shut the connection down.
    Close,
}

/// An `Action` over sequences.
pub enum ActionView {
    Show { text: Seq<char> },
    Terminate { text: Seq<char> },
    ForwardToGame { event: Seq<u8> },
    Send { frame: Seq<u8> },
    Close,
}

impl View for Action {
    type V = ActionView;

    open spec fn view(&self) -> ActionView {
        match *self {
            Action::Show { text } => ActionView::Show { text: text@ },
            Action::Terminate { text } => ActionView::Terminate { text: text@ },
            Action::ForwardToGame { event } => ActionView::ForwardToGame { event: event@ },
            Action::Send { frame } => ActionView::Send { frame: frame@ },
            Action::Close => ActionView::Close,
        }
    }
}

/// What the user is told when the client gives up.
pub open spec fn shutdown_text() -> Seq<char> {
    "An unrecoverable error has occurred, game terminating."@
}

/// Whether `event` ends the client: the server shuts down, or the game is
/// over.
pub open spec fn ends_client(event: IncomingEventView) -> bool {
    event == IncomingEventView::Server(OutgoingEventView::Shutdown) || event
        == IncomingEventView::Game(GameClientEvent::GameOver)
}

/// A client: the game that it plays, and whether it still runs.
#[derive(Debug)]
pub struct Client<G: GameClient> {
    running: bool,
    game: G,
}

impl Client<TicTacToeClient<LocalClient>> {
    /// A running client at which both players sit.
    pub fn new_local(game: Game) -> (client: Client<TicTacToeClient<LocalClient>>)
        ensures
            client.running_of(),
            client.game_of() == TicTacToeClient::<LocalClient>::new_spec(LocalClient {  }),
    {
        match game {
            Game::TicTacToe => Client { running: true, game: TicTacToeClient::new(LocalClient {  }) },
        }
    }
}

impl Client<TicTacToeClient<OnlineClient>> {
    /// A running client at which the player `id` sits.
    pub fn new_online_tic_tac_toe(id: u8, game: Game) -> (client: Client<
        TicTacToeClient<OnlineClient>,
    >)
        ensures
            client.running_of(),
            client.game_of() == TicTacToeClient::<OnlineClient>::new_spec(OnlineClient { id }),
    {
        match game {
            Game::TicTacToe => Client {
                running: true,
                game: TicTacToeClient::new(OnlineClient { id }),
            },
        }
    }
}

impl<G: GameClient> Client<G> {
    /// Whether the client still runs.
    pub closed spec fn running_of(&self) -> bool {
        self.running
    }

    /// The game that the client plays.
    pub closed spec fn game_of(&self) -> G {
        self.game
    }

    /// What the client asks for in answer to `event`.
    ///
    /// An error that the server reports is shown, and so is the start of the
    /// game, in the game's words. The server's shutdown is shown and ends
    /// the client. A game message of the server goes to the game as it is.
    /// What the game has for the server is framed to be written, unless it
    /// is too long to frame, in which case there is nothing to be done. The
    /// game's end closes the connection.
    pub open spec fn action_for(&self, event: IncomingEventView) -> Option<ActionView> {
        match event {
            IncomingEventView::Server(OutgoingEventView::ErrorOccurred(error)) => Some(
                ActionView::Show { text: "Error: "@ + error.message_of() },
            ),
            IncomingEventView::Server(OutgoingEventView::GameStarted) => Some(
                ActionView::Show { text: self.game_of().started_text() },
            ),
            IncomingEventView::Server(OutgoingEventView::Shutdown) => Some(
                ActionView::Terminate { text: shutdown_text() },
            ),
            IncomingEventView::Server(OutgoingEventView::Game { event }) => Some(
                ActionView::ForwardToGame { event },
            ),
            IncomingEventView::Game(GameClientEvent::DispatchToServer { event }) => match frame_of(
                json_of_bytes(event),
            ) {
                Some(frame) => Some(ActionView::Send { frame }),
                None => None,
            },
            IncomingEventView::Game(GameClientEvent::GameOver) => Some(ActionView::Close),
        }
    }

    /// Whether the client still runs: the loop that drives it goes on while
    /// it does.
    pub fn is_running(&self) -> (running: bool)
        ensures
            running == self.running_of(),
    {
        self.running
    }

    /// The game that the client plays.
    pub fn game(&self) -> (game: &G)
        ensures
            *game == self.game_of(),
    {
        &self.game
    }

    /// The game that the client plays, to hand an event to. Whether the
    /// client runs does not change.
    pub fn game_mut(&mut self) -> (game: &mut G)
        ensures
            *game == old(self).game_of(),
            final(self).game_of() == *final(game),
            final(self).running_of() == old(self).running_of(),
    {
        &mut self.game
    }

    /// Takes `event` and returns what is to be done about it. The client
    /// stops running when the server shuts down or the game is over. A
    /// message of the game that is too long to frame is an error, and leaves
    /// the client as it was.
    pub fn handle_event(&mut self, event: IncomingEvent) -> (result: Result<Action, ClientError>)
        ensures
            match old(self).action_for(event@) {
                Some(action) => result matches Ok(a) && a@ == action,
                None => result matches Err(ClientError::Write(WriteError::InvalidMessageLength)),
            },
            final(self).game_of() == old(self).game_of(),
            final(self).running_of() == (old(self).running_of() && !ends_client(event@)),
    {
        match event {
            IncomingEvent::Server(server_event) => match server_event {
                OutgoingEvent::ErrorOccurred(error) => Ok(self.handle_error(error)),
                OutgoingEvent::GameStarted => Ok(
                    Action::Show { text: self.game.handle_game_started_event() },
                ),
                OutgoingEvent::Shutdown => Ok(Action::Terminate { text: self.handle_shutdown() }),
                OutgoingEvent::Game { event } => Ok(Action::ForwardToGame { event }),
            },
            IncomingEvent::Game(game_event) => match game_event {
                GameClientEvent::DispatchToServer { event } => match write_event(&event) {
                    Ok(frame) => Ok(Action::Send { frame }),
                    Err(error) => Err(ClientError::from(error)),
                },
                GameClientEvent::GameOver => {
                    self.shutdown();
                    Ok(Action::Close)
                },
            },
        }
    }

    /// An error that the server reports, for the user.
    fn handle_error(&self, error: SessionError) -> (action: Action)
        ensures
            action@ == (ActionView::Show { text: "Error: "@ + error.message_of() }),
    {
        let mut text = String::from_str("Error: ");
        let message = error.message();
        text.append(message.as_str());
        Action::Show { text }
    }

    /// Gives up: the client stops running, and the user is told so with the
    /// text that is returned. The connection is then to be shut down.
    pub fn handle_shutdown(&mut self) -> (text: String)
        ensures
            text@ == shutdown_text(),
            !final(self).running_of(),
            final(self).game_of() == old(self).game_of(),
    {
        self.shutdown();
        String::from_str("An unrecoverable error has occurred, game terminating.")
    }

    /// Stops the client. The connection is then to be shut down.
    pub fn shutdown(&mut self)
        ensures
            !final(self).running_of(),
            final(self).game_of() == old(self).game_of(),
    {
        self.running = false;
    }
}

} // verus!
