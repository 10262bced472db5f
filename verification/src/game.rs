//! What a game is to the session and to the client that run it.

use crate::server::DispatchMode;
use vstd::prelude::*;

verus! {

/// How many events of a game may wait to be taken before the game has to
/// wait itself.
pub const GAME_EVENT_CAPACITY: usize = 10;

/// The games that a session can run.
#[derive(Debug, Copy, Clone, PartialEq, Eq, Structural)]
pub enum Game {
    TicTacToe,
}

/// What a game engine hands to the session that runs it: a message of type
/// `E` for one or all participants, or the end of the game.
#[derive(Debug, PartialEq, Eq)]
pub enum GameServerEvent<E> {
    DispatchToClient { dispatch_mode: DispatchMode, event: E },
    GameOver,
}

impl<E: View> View for GameServerEvent<E> {
    type V = GameServerEvent<E::V>;

    open spec fn view(&self) -> GameServerEvent<E::V> {
        match *self {
            GameServerEvent::DispatchToClient { dispatch_mode, event } => {
                GameServerEvent::DispatchToClient { dispatch_mode, event: event@ }
            },
            GameServerEvent::GameOver => GameServerEvent::GameOver,
        }
    }
}

/// What a client-side game hands to the client that runs it: a message of
/// type `E` for the server, or the end of the game.
#[derive(Debug, PartialEq, Eq)]
pub enum GameClientEvent<E> {
    DispatchToServer { event: E },
    GameOver,
}

impl<E: View> View for GameClientEvent<E> {
    type V = GameClientEvent<E::V>;

    open spec fn view(&self) -> GameClientEvent<E::V> {
        match *self {
            GameClientEvent::DispatchToServer { event } => GameClientEvent::DispatchToServer {
                event: event@,
            },
            GameClientEvent::GameOver => GameClientEvent::GameOver,
        }
    }
}

/// The views of the items of `items`, in order.
pub open spec fn views<T: View>(items: Seq<T>) -> Seq<T::V> {
    items.map_values(|item: T| item@)
}

/// A game engine as the session sees it. Both operations return the events
/// that the engine emits, in the order in which it emits them.
pub trait GameServer {
    /// What participants send to the engine.
    type Incoming;

    /// What the engine sends to participants.
    type Outgoing;

    /// Called once, when the session leaves its initial state.
    fn begin(&self) -> Vec<GameServerEvent<Self::Outgoing>>;

    /// Called once for each message of a participant while the game is on.
    fn handle_event(&mut self, event: Self::Incoming) -> Vec<GameServerEvent<Self::Outgoing>>;
}

/// A client-side game as the client sees it. Both operations return what
/// the game has to say about the event.
pub trait GameClient {
    /// What the server-side engine sends.
    type Incoming;

    /// What the game answers with.
    type Reply;

    /// The line that the user is shown when the game starts.
    spec fn started_text(&self) -> Seq<char>;

    /// Called when the server announces the start of the game: the line to
    /// show to the user.
    fn handle_game_started_event(&self) -> (text: String)
        ensures
            text@ == self.started_text(),
    ;

    /// Whether the game can take `event`.
    spec fn takes(&self, event: Self::Incoming) -> bool;

    /// Called once for each message of the server-side engine.
    fn handle_event(&mut self, event: Self::Incoming) -> Self::Reply
        requires
            old(self).takes(event),
    ;
}

} // verus!
