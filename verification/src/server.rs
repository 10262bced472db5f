//! The session: a state machine that is handed one event at a time and
//! answers with what is to be written, and to whom.

use crate::connection::{ErrorCategory, HasErrorCategory, ReadError, WriteError};
use crate::game::{views, Game, GameServerEvent};
use crate::server::player::{alternative_player_id, is_player};
use vstd::prelude::*;

pub mod player;

pub use crate::server::player::{get_alternative_player_id, Player, PLAYER_ONE_ID, PLAYER_TWO_ID};

verus! {

/// How many signals of its own a session holds at a time: the one that sets
/// it going.
pub const SERVER_EVENT_CAPACITY: usize = 1;

/// Where a session stands. `GameOver` and `Error` are final.
#[derive(PartialEq, Eq, Structural, Debug, Copy, Clone)]
pub enum State {
    PreInitialise,
    InProgress,
    GameOver,
    Error { category: ErrorCategory, player_id: u8 },
}

/// A signal that the session sends to itself.
#[derive(Debug, Copy, Clone, PartialEq, Eq, Structural)]
pub enum ServerEvent {
    BeginGame,
    PlayerDisconnected,
}

/// To whom an outbound game message goes.
#[derive(Debug, Copy, Clone, PartialEq, Eq, Structural)]
pub enum DispatchMode {
    AllPlayers,
    SinglePlayer { player_id: u8 },
}

/// What a session holds against a participant.
#[derive(Copy, Clone, Debug, PartialEq, Eq, Structural)]
pub enum SessionError {
    InvalidMessage,
}

impl SessionError {
    /// What the user is told about the error.
    pub open spec fn message_of(self) -> Seq<char> {
        "Invalid message sent."@
    }

    /// What the user is told about the error.
    pub fn message(&self) -> (text: String)
        ensures
            text@ == self.message_of(),
    {
        String::from_str("Invalid message sent.")
    }
}

/// A message from the session to a participant. What the game engine emits
/// travels inside `Game`, as the bytes that the engine handed over.
#[derive(Debug, PartialEq, Eq)]
pub enum OutgoingEvent {
    ErrorOccurred(SessionError),
    GameStarted,
    Shutdown,
    Game { event: Vec<u8> },
}

/// An `OutgoingEvent` with its payload as a sequence of bytes.
pub enum OutgoingEventView {
    ErrorOccurred(SessionError),
    GameStarted,
    Shutdown,
    Game { event: Seq<u8> },
}

impl View for OutgoingEvent {
    type V = OutgoingEventView;

    open spec fn view(&self) -> OutgoingEventView {
        match *self {
            OutgoingEvent::ErrorOccurred(error) => OutgoingEventView::ErrorOccurred(error),
            OutgoingEvent::GameStarted => OutgoingEventView::GameStarted,
            OutgoingEvent::Shutdown => OutgoingEventView::Shutdown,
            OutgoingEvent::Game { event } => OutgoingEventView::Game { event: event@ },
        }
    }
}

/// What a session is handed to work on: a signal of its own, an event that
/// the game engine emitted, or the message of a participant.
#[derive(Debug, PartialEq, Eq)]
pub enum IncomingEvent {
    Server(ServerEvent),
    Game(GameServerEvent<Vec<u8>>),
    Client(Vec<u8>),
}

/// An `IncomingEvent` with its payloads as sequences of bytes.
pub enum IncomingEventView {
    Server(ServerEvent),
    Game(GameServerEvent<Seq<u8>>),
    Client(Seq<u8>),
}

impl View for IncomingEvent {
    type V = IncomingEventView;

    open spec fn view(&self) -> IncomingEventView {
        match *self {
            IncomingEvent::Server(event) => IncomingEventView::Server(event),
            IncomingEvent::Game(event) => IncomingEventView::Game(event@),
            IncomingEvent::Client(event) => IncomingEventView::Client(event@),
        }
    }
}

/// What became ready while the session waited: a signal of its own, an event
/// of the game engine, or the end of a read on the connection of
/// `player_id`.
#[derive(Debug)]
pub enum Arrival {
    Server(ServerEvent),
    Game(GameServerEvent<Vec<u8>>),
    Client { player_id: u8, result: Result<Vec<u8>, ReadError> },
}

/// One message and the connections to write it to, each named by the
/// identifier of the participant that it belongs to. Whoever carries it out
/// writes to them in this order and stops at the first write that fails; the
/// failure belongs to the participant of that connection.
#[derive(Debug, PartialEq, Eq)]
pub struct Dispatch {
    pub event: OutgoingEvent,
    pub recipients: Vec<u8>,
}

/// A `Dispatch` over sequences.
pub struct DispatchView {
    pub event: OutgoingEventView,
    pub recipients: Seq<u8>,
}

impl View for Dispatch {
    type V = DispatchView;

    open spec fn view(&self) -> DispatchView {
        DispatchView { event: self.event@, recipients: self.recipients@ }
    }
}

impl DispatchView {
    /// The connections that have the message once `written` writes have
    /// succeeded: the first `written` of the recipients, and no other.
    pub open spec fn delivered(self, written: nat) -> Seq<u8> {
        if written <= self.recipients.len() {
            self.recipients.take(written as int)
        } else {
            self.recipients
        }
    }
}

impl Dispatch {
    /// The connection to write to next, once `written` writes have
    /// succeeded: the recipients are written to in their order, one after
    /// the other, and there is none left when each has been written to.
    pub fn next_recipient(&self, written: usize) -> (next: Option<u8>)
        ensures
            next == if written < self@.recipients.len() {
                Some(self@.recipients[written as int])
            } else {
                None
            },
    {
        if written < self.recipients.len() {
            Some(self.recipients[written])
        } else {
            None
        }
    }

    /// What a write that fails with `error` puts an end to, after `written`
    /// writes have succeeded: the failure belongs to the recipient whose
    /// write it was. The recipients before it have the message, and those
    /// after it are not written to.
    pub fn failure(&self, written: usize, error: WriteError) -> (failure: (WriteError, u8))
        requires
            written < self@.recipients.len(),
        ensures
            failure == (error, self@.recipients[written as int]),
    {
        (error, self.recipients[written])
    }
}

/// What the session asks for in answer to an event.
#[derive(Debug, PartialEq, Eq)]
pub enum Reaction {
    /// Carry out `announcement`; once every write has succeeded, tell the
    /// game engine to begin.
    StartGame { announcement: Dispatch },
    /// Hand `event` to the game engine.
    ForwardToGame { event: Vec<u8> },
    /// Carry out `dispatch`.
    Relay { dispatch: Dispatch },
    /// Nothing: the game is over.
    Finish,
}

/// A `Reaction` over sequences.
pub enum ReactionView {
    StartGame { announcement: DispatchView },
    ForwardToGame { event: Seq<u8> },
    Relay { dispatch: DispatchView },
    Finish,
}

impl View for Reaction {
    type V = ReactionView;

    open spec fn view(&self) -> ReactionView {
        match *self {
            Reaction::StartGame { announcement } => ReactionView::StartGame {
                announcement: announcement@,
            },
            Reaction::ForwardToGame { event } => ReactionView::ForwardToGame { event: event@ },
            Reaction::Relay { dispatch } => ReactionView::Relay { dispatch: dispatch@ },
            Reaction::Finish => ReactionView::Finish,
        }
    }
}

/// How a session that failed takes its leave: the notices to carry out one
/// after the other, a failed write ending its own notice and no more, and
/// then the connections to shut down.
#[derive(Debug, PartialEq, Eq)]
pub struct Recovery {
    pub notices: Vec<Dispatch>,
    pub shutdown: Vec<u8>,
}

/// A `Recovery` over sequences.
pub struct RecoveryView {
    pub notices: Seq<DispatchView>,
    pub shutdown: Seq<u8>,
}

impl View for Recovery {
    type V = RecoveryView;

    open spec fn view(&self) -> RecoveryView {
        RecoveryView { notices: views(self.notices@), shutdown: self.shutdown@ }
    }
}

/// What the loop that drives a session does next.
#[derive(Debug, Copy, Clone, PartialEq, Eq, Structural)]
pub enum Step {
    /// Wait for the next arrival and hand it to the session.
    Continue,
    /// Take leave as `handle_error` says for this fault, then stop.
    Recover { category: ErrorCategory, player_id: u8 },
    /// Stop: the game is over.
    Stop,
}

/// Whether a session in `state` takes no more events.
pub open spec fn is_terminal(state: State) -> bool {
    state is GameOver || state is Error
}

/// The state that follows `state` on `event`, for the pairs that a session
/// knows; `None` for every other pair.
pub open spec fn transition(state: State, event: IncomingEventView) -> Option<State> {
    match (state, event) {
        (State::PreInitialise, IncomingEventView::Server(ServerEvent::BeginGame)) => Some(
            State::InProgress,
        ),
        (State::InProgress, IncomingEventView::Client(_)) => Some(State::InProgress),
        (
            State::InProgress,
            IncomingEventView::Game(GameServerEvent::DispatchToClient { .. }),
        ) => Some(State::InProgress),
        (State::InProgress, IncomingEventView::Game(GameServerEvent::GameOver)) => Some(
            State::GameOver,
        ),
        _ => None,
    }
}

/// What the loop does next for a session in `state`.
pub open spec fn step_of(state: State) -> Step {
    match state {
        State::GameOver => Step::Stop,
        State::Error { category, player_id } => Step::Recover { category, player_id },
        _ => Step::Continue,
    }
}

/// Marks the types that say how the participants are connected.
pub trait ClientConnectionType {

}

/// Both players share one connection.
#[derive(Debug)]
pub struct LocalConnection<C> {
    connection: C,
}

impl<C> ClientConnectionType for LocalConnection<C> {

}

impl<C> LocalConnection<C> {
    /// The connection that both players share.
    pub closed spec fn connection_of(&self) -> C {
        self.connection
    }
}

/// Each player has a connection.
#[derive(Debug)]
pub struct OnlineConnection<C> {
    player_one: Player<C>,
    player_two: Player<C>,
}

impl<C> ClientConnectionType for OnlineConnection<C> {

}

impl<C> OnlineConnection<C> {
    /// The first player.
    pub closed spec fn player_one_of(&self) -> Player<C> {
        self.player_one
    }

    /// The second player.
    pub closed spec fn player_two_of(&self) -> Player<C> {
        self.player_two
    }
}

/// A game session: its state, its connections and the game that it runs.
#[derive(Debug)]
pub struct Server<C: ClientConnectionType> {
    state: State,
    client_connection: C,
    game: Game,
}

/// How a session reaches its participants. A connection is named by the
/// identifier of the participant that it belongs to.
pub trait ServerGameMode {
    /// The connections of the session, in the order in which a message for
    /// all is written to them.
    spec fn transports(&self) -> Seq<u8>;

    /// The connection that carries what is meant for `player_id`, if one does.
    spec fn transport_of(&self, player_id: u8) -> Option<u8>;

    /// Whether a connection carries what is meant for `player_id`.
    fn serves(&self, player_id: u8) -> (served: bool)
        ensures
            served == self.transport_of(player_id) is Some,
    ;

    /// `event` for one participant.
    fn dispatch_event_to_player(&self, event: OutgoingEvent, player_id: u8) -> (dispatch: Dispatch)
        requires
            self.transport_of(player_id) is Some,
        ensures
            dispatch@ == (DispatchView {
                event: event@,
                recipients: seq![self.transport_of(player_id).unwrap()],
            }),
    ;

    /// `event` for every participant.
    fn dispatch_event_to_all_players(&self, event: OutgoingEvent) -> (dispatch: Dispatch)
        ensures
            dispatch@ == (DispatchView { event: event@, recipients: self.transports() }),
    ;

    /// The connections to shut down when the session ends: all of them.
    fn shutdown_all_client_connections(&self) -> (transports: Vec<u8>)
        ensures
            transports@ == self.transports(),
    ;
}

impl<C> Server<LocalConnection<C>> {
    /// The connection that both players share.
    pub open spec fn connection_of(&self) -> C {
        self.client_connection_of().connection_of()
    }

    /// A session for two players who share `connection`.
    pub fn new(connection: C, game: Game) -> (server: Server<LocalConnection<C>>)
        ensures
            server.state_of() == State::PreInitialise,
            server.game_of() == game,
            server.connection_of() == connection,
    {
        Server { state: State::PreInitialise, client_connection: LocalConnection { connection }, game }
    }

    /// The shared connection, to read from or write to. Nothing else of the
    /// session changes.
    pub fn connection_mut(&mut self) -> (connection: &mut C)
        ensures
            *connection == old(self).connection_of(),
            final(self).connection_of() == *final(connection),
            final(self).state_of() == old(self).state_of(),
            final(self).game_of() == old(self).game_of(),
    {
        &mut self.client_connection.connection
    }
}

impl<C> ServerGameMode for Server<LocalConnection<C>> {
    /// One connection, known under the first player's identifier.
    open spec fn transports(&self) -> Seq<u8> {
        seq![PLAYER_ONE_ID]
    }

    /// The shared connection carries what is meant for anyone.
    open spec fn transport_of(&self, player_id: u8) -> Option<u8> {
        Some(PLAYER_ONE_ID)
    }

    fn serves(&self, player_id: u8) -> (served: bool) {
        true
    }

    fn dispatch_event_to_player(&self, event: OutgoingEvent, player_id: u8) -> (dispatch: Dispatch) {
        let mut recipients: Vec<u8> = Vec::new();
        recipients.push(PLAYER_ONE_ID);
        assert(recipients@ =~= seq![PLAYER_ONE_ID]);
        Dispatch { event, recipients }
    }

    fn dispatch_event_to_all_players(&self, event: OutgoingEvent) -> (dispatch: Dispatch) {
        self.dispatch_event_to_player(event, PLAYER_ONE_ID)
    }

    fn shutdown_all_client_connections(&self) -> (transports: Vec<u8>) {
        let mut transports: Vec<u8> = Vec::new();
        transports.push(PLAYER_ONE_ID);
        assert(transports@ =~= seq![PLAYER_ONE_ID]);
        transports
    }
}

impl<C> Server<OnlineConnection<C>> {
    /// The first player.
    pub open spec fn player_one_of(&self) -> Player<C> {
        self.client_connection_of().player_one_of()
    }

    /// The second player.
    pub open spec fn player_two_of(&self) -> Player<C> {
        self.client_connection_of().player_two_of()
    }

    /// A session for two players with a connection each.
    pub fn new(player_one: Player<C>, player_two: Player<C>, game: Game) -> (server: Server<
        OnlineConnection<C>,
    >)
        ensures
            server.state_of() == State::PreInitialise,
            server.game_of() == game,
            server.player_one_of() == player_one,
            server.player_two_of() == player_two,
    {
        Server {
            state: State::PreInitialise,
            client_connection: OnlineConnection { player_one, player_two },
            game,
        }
    }

    /// The connection named `transport`, to read from or write to: the first
    /// player's for `PLAYER_ONE_ID`, the second player's for `PLAYER_TWO_ID`.
    /// Nothing else of the session changes.
    pub fn connection_mut(&mut self, transport: u8) -> (connection: &mut C)
        requires
            transport == PLAYER_ONE_ID || transport == PLAYER_TWO_ID,
        ensures
            final(self).state_of() == old(self).state_of(),
            final(self).game_of() == old(self).game_of(),
            final(self).player_one_of().id_of() == old(self).player_one_of().id_of(),
            final(self).player_two_of().id_of() == old(self).player_two_of().id_of(),
            transport == PLAYER_ONE_ID ==> ({
                &&& *connection == old(self).player_one_of().connection_of()
                &&& final(self).player_one_of().connection_of() == *final(connection)
                &&& final(self).player_two_of() == old(self).player_two_of()
            }),
            transport == PLAYER_TWO_ID ==> ({
                &&& *connection == old(self).player_two_of().connection_of()
                &&& final(self).player_two_of().connection_of() == *final(connection)
                &&& final(self).player_one_of() == old(self).player_one_of()
            }),
    {
        if transport == PLAYER_ONE_ID {
            self.client_connection.player_one.connection_mut()
        } else {
            self.client_connection.player_two.connection_mut()
        }
    }

    /// Both connections at once, the first player's and then the second
    /// player's, to wait on together. Nothing else of the session changes.
    pub fn connections_mut(&mut self) -> (connections: (&mut C, &mut C))
        ensures
            final(self).state_of() == old(self).state_of(),
            final(self).game_of() == old(self).game_of(),
            final(self).player_one_of().id_of() == old(self).player_one_of().id_of(),
            final(self).player_two_of().id_of() == old(self).player_two_of().id_of(),
            *connections.0 == old(self).player_one_of().connection_of(),
            *connections.1 == old(self).player_two_of().connection_of(),
            final(self).player_one_of().connection_of() == *final(connections.0),
            final(self).player_two_of().connection_of() == *final(connections.1),
    {
        (
            self.client_connection.player_one.connection_mut(),
            self.client_connection.player_two.connection_mut(),
        )
    }
}

impl<C> ServerGameMode for Server<OnlineConnection<C>> {
    /// The first player's connection, then the second player's.
    open spec fn transports(&self) -> Seq<u8> {
        seq![PLAYER_ONE_ID, PLAYER_TWO_ID]
    }

    /// Each of the two players has a connection; nobody else has one.
    open spec fn transport_of(&self, player_id: u8) -> Option<u8> {
        if player_id == PLAYER_ONE_ID || player_id == PLAYER_TWO_ID {
            Some(player_id)
        } else {
            None
        }
    }

    fn serves(&self, player_id: u8) -> (served: bool) {
        player_id == PLAYER_ONE_ID || player_id == PLAYER_TWO_ID
    }

    fn dispatch_event_to_player(&self, event: OutgoingEvent, player_id: u8) -> (dispatch: Dispatch) {
        let mut recipients: Vec<u8> = Vec::new();
        recipients.push(player_id);
        assert(recipients@ =~= seq![player_id]);
        Dispatch { event, recipients }
    }

    fn dispatch_event_to_all_players(&self, event: OutgoingEvent) -> (dispatch: Dispatch) {
        let mut recipients: Vec<u8> = Vec::new();
        recipients.push(PLAYER_ONE_ID);
        recipients.push(PLAYER_TWO_ID);
        assert(recipients@ =~= seq![PLAYER_ONE_ID, PLAYER_TWO_ID]);
        Dispatch { event, recipients }
    }

    fn shutdown_all_client_connections(&self) -> (transports: Vec<u8>) {
        let mut transports: Vec<u8> = Vec::new();
        transports.push(PLAYER_ONE_ID);
        transports.push(PLAYER_TWO_ID);
        assert(transports@ =~= seq![PLAYER_ONE_ID, PLAYER_TWO_ID]);
        transports
    }
}

impl<C: ClientConnectionType> Server<C> {
    /// Where the session stands.
    pub closed spec fn state_of(&self) -> State {
        self.state
    }

    /// The game that the session runs.
    pub closed spec fn game_of(&self) -> Game {
        self.game
    }

    /// The connections of the session.
    pub closed spec fn client_connection_of(&self) -> C {
        self.client_connection
    }

    /// Where the session stands.
    pub fn state(&self) -> (state: State)
        ensures
            state == self.state_of(),
    {
        self.state
    }

    /// The game that the session runs.
    pub fn game(&self) -> (game: Game)
        ensures
            game == self.game_of(),
    {
        self.game
    }

    /// The signal with which a session is set going.
    pub fn init(&self) -> (event: IncomingEvent)
        ensures
            event@ == IncomingEventView::Server(ServerEvent::BeginGame),
    {
        IncomingEvent::Server(ServerEvent::BeginGame)
    }

    /// Whether the session waits on its participants' connections. It
    /// reads nothing from them before the game has begun, nor after it has
    /// ended: until the signal to begin has been taken it waits on that
    /// signal alone.
    pub fn awaits_participants(&self) -> (reads: bool)
        ensures
            reads == (self.state_of() is InProgress),
    {
        match self.state {
            State::InProgress => true,
            _ => false,
        }
    }

    /// What an arrival is to the session: the event that it carries, or
    /// the failed read with the participant that it belongs to. The end of
    /// a read arrives only while the session waits on its participants.
    pub fn get_next_incoming_event(&self, arrival: Arrival) -> (result: Result<
        IncomingEvent,
        (ReadError, u8),
    >)
        requires
            arrival is Client ==> self.state_of() is InProgress,
        ensures
            match arrival {
                Arrival::Server(event) => result matches Ok(e) && e@ == IncomingEventView::Server(
                    event,
                ),
                Arrival::Game(event) => result matches Ok(e) && e@ == IncomingEventView::Game(
                    event@,
                ),
                Arrival::Client { player_id, result: Ok(event) } => result matches Ok(e) && e@
                    == IncomingEventView::Client(event@),
                Arrival::Client { player_id, result: Err(error) } => result matches Err(failure)
                    && failure == (error, player_id),
            },
    {
        match arrival {
            Arrival::Server(event) => Ok(IncomingEvent::Server(event)),
            Arrival::Game(event) => Ok(IncomingEvent::Game(event)),
            Arrival::Client { player_id, result } => match result {
                Ok(event) => Ok(IncomingEvent::Client(event)),
                Err(error) => Err((error, player_id)),
            },
        }
    }

    /// What the loop that drives the session does next: it stops when the
    /// game is over, takes leave and stops after a fault, and goes on
    /// otherwise.
    pub fn next_step(&self) -> (step: Step)
        ensures
            step == step_of(self.state_of()),
            step is Continue <==> !is_terminal(self.state_of()),
    {
        match self.state {
            State::GameOver => Step::Stop,
            State::Error { category, player_id } => Step::Recover { category, player_id },
            _ => Step::Continue,
        }
    }

    /// Records that a read or a write failed with `error` on the connection
    /// of `player_id`: the session ends in `Error`, with the category of
    /// the error and that participant.
    pub fn handle_failure<E: HasErrorCategory>(&mut self, error: &E, player_id: u8)
        requires
            !is_terminal(old(self).state_of()),
        ensures
            final(self).state_of() == (State::Error { category: error.category_of(), player_id }),
            final(self).game_of() == old(self).game_of(),
            final(self).client_connection_of() == old(self).client_connection_of(),
    {
        self.state = State::Error { category: error.category(), player_id };
    }
}

impl<C> Server<C> where C: ClientConnectionType, Server<C>: ServerGameMode {
    /// The connections that a game message sent under `dispatch_mode` goes
    /// to. A single player must have a connection.
    pub open spec fn recipients_of(&self, dispatch_mode: DispatchMode) -> Seq<u8> {
        match dispatch_mode {
            DispatchMode::AllPlayers => self.transports(),
            DispatchMode::SinglePlayer { player_id } => seq![
                self.transport_of(player_id).unwrap(),
            ],
        }
    }

    /// Whether the session can send under `dispatch_mode`: it cannot send to
    /// a single player who has no connection.
    pub open spec fn can_reach(&self, dispatch_mode: DispatchMode) -> bool {
        dispatch_mode matches DispatchMode::SinglePlayer { player_id } ==> self.transport_of(
            player_id,
        ) is Some
    }

    /// Whether the session has an answer to `event` where it stands: the pair
    /// is one that `transition` knows, and a game message that it carries can
    /// be sent.
    pub open spec fn accepts_event(&self, event: IncomingEventView) -> bool {
        &&& transition(self.state_of(), event) is Some
        &&& event matches IncomingEventView::Game(
            GameServerEvent::DispatchToClient { dispatch_mode, .. },
        ) ==> self.can_reach(dispatch_mode)
    }

    /// What the session asks for in answer to `event`.
    ///
    /// The signal to begin has the start of the game announced to everyone.
    /// A participant's message goes to the game engine as it is. A message
    /// of the engine goes out inside a `Game` envelope, to whom the engine
    /// said. The engine's end of the game asks for nothing.
    pub open spec fn reaction_to(&self, event: IncomingEventView) -> ReactionView {
        match event {
            IncomingEventView::Server(_) => ReactionView::StartGame {
                announcement: DispatchView {
                    event: OutgoingEventView::GameStarted,
                    recipients: self.transports(),
                },
            },
            IncomingEventView::Client(event) => ReactionView::ForwardToGame { event },
            IncomingEventView::Game(GameServerEvent::DispatchToClient { dispatch_mode, event }) => {
                ReactionView::Relay {
                    dispatch: DispatchView {
                        event: OutgoingEventView::Game { event },
                        recipients: self.recipients_of(dispatch_mode),
                    },
                }
            },
            IncomingEventView::Game(GameServerEvent::GameOver) => ReactionView::Finish,
        }
    }

    /// Whether the session can take its leave after a fault of `category`
    /// that belongs to `player_id`. It cannot after a fault in its own
    /// serialising, and it needs a connection for the notice that it sends:
    /// to that participant after an unreadable message, to the other one
    /// after a failed read or write.
    pub open spec fn can_recover(&self, category: ErrorCategory, player_id: u8) -> bool {
        match category {
            ErrorCategory::Serialisation => false,
            ErrorCategory::Deserialisation | ErrorCategory::InvalidParameters => self.transport_of(
                player_id,
            ) is Some,
            ErrorCategory::ReadWrite => self.transport_of(alternative_player_id(player_id))
                is Some,
        }
    }

    /// How the session takes its leave after a fault of `category` that
    /// belongs to `player_id`.
    ///
    /// After an unreadable message that participant is told so, and then
    /// everyone is told that the session shuts down. After a failed read or
    /// write only the other participant is told that it shuts down. Either
    /// way every connection is shut down at the end.
    pub open spec fn recovery_from(&self, category: ErrorCategory, player_id: u8) -> RecoveryView {
        match category {
            ErrorCategory::ReadWrite => RecoveryView {
                notices: seq![
                    DispatchView {
                        event: OutgoingEventView::Shutdown,
                        recipients: seq![
                            self.transport_of(alternative_player_id(player_id)).unwrap(),
                        ],
                    },
                ],
                shutdown: self.transports(),
            },
            _ => RecoveryView {
                notices: seq![
                    DispatchView {
                        event: OutgoingEventView::ErrorOccurred(SessionError::InvalidMessage),
                        recipients: seq![self.transport_of(player_id).unwrap()],
                    },
                    DispatchView {
                        event: OutgoingEventView::Shutdown,
                        recipients: self.transports(),
                    },
                ],
                shutdown: self.transports(),
            },
        }
    }

    /// Whether the session has an answer to `event` where it stands.
    pub fn accepts(&self, event: &IncomingEvent) -> (accepted: bool)
        ensures
            accepted == self.accepts_event(event@),
    {
        match (self.state, event) {
            (State::PreInitialise, IncomingEvent::Server(ServerEvent::BeginGame)) => true,
            (State::InProgress, IncomingEvent::Client(_)) => true,
            (
                State::InProgress,
                IncomingEvent::Game(GameServerEvent::DispatchToClient { dispatch_mode, event: _ }),
            ) => match dispatch_mode {
                DispatchMode::AllPlayers => true,
                DispatchMode::SinglePlayer { player_id } => self.serves(*player_id),
            },
            (State::InProgress, IncomingEvent::Game(GameServerEvent::GameOver)) => true,
            _ => false,
        }
    }

    /// Takes `event`: moves the session to the state that follows, and
    /// returns what is to be done about the event. Should a write of that
    /// fail, `handle_failure` takes the session on to `Error`.
    pub fn handle_incoming_event(&mut self, event: IncomingEvent) -> (reaction: Reaction)
        requires
            old(self).accepts_event(event@),
        ensures
            transition(old(self).state_of(), event@) == Some(final(self).state_of()),
            final(self).game_of() == old(self).game_of(),
            final(self).client_connection_of() == old(self).client_connection_of(),
            reaction@ == old(self).reaction_to(event@),
    {
        match (self.state, event) {
            (State::PreInitialise, IncomingEvent::Server(ServerEvent::BeginGame)) => {
                let announcement = self.dispatch_event_to_all_players(OutgoingEvent::GameStarted);
                self.state = State::InProgress;
                Reaction::StartGame { announcement }
            },
            (State::InProgress, IncomingEvent::Client(event)) => Reaction::ForwardToGame { event },
            (
                State::InProgress,
                IncomingEvent::Game(GameServerEvent::DispatchToClient { dispatch_mode, event }),
            ) => Reaction::Relay { dispatch: self.dispatch_game_event(dispatch_mode, event) },
            (State::InProgress, IncomingEvent::Game(GameServerEvent::GameOver)) => {
                self.state = State::GameOver;
                Reaction::Finish
            },
            _ => unreached(),
        }
    }

    /// Whether the session can take its leave after this fault.
    pub fn recoverable(&self, error_category: ErrorCategory, player_id: u8) -> (possible: bool)
        ensures
            possible == self.can_recover(error_category, player_id),
    {
        match error_category {
            ErrorCategory::Serialisation => false,
            ErrorCategory::Deserialisation | ErrorCategory::InvalidParameters => self.serves(
                player_id,
            ),
            ErrorCategory::ReadWrite => self.serves(get_alternative_player_id(player_id)),
        }
    }

    /// How the session takes its leave after a fault of `error_category`
    /// that belongs to `player_id`.
    pub fn handle_error(&self, error_category: ErrorCategory, player_id: u8) -> (recovery: Recovery)
        requires
            self.can_recover(error_category, player_id),
        ensures
            recovery@ == self.recovery_from(error_category, player_id),
    {
        let mut notices: Vec<Dispatch> = Vec::new();
        match error_category {
            ErrorCategory::Serialisation => unreached(),
            ErrorCategory::ReadWrite => {
                notices.push(
                    self.dispatch_event_to_player(
                        OutgoingEvent::Shutdown,
                        get_alternative_player_id(player_id),
                    ),
                );
            },
            ErrorCategory::Deserialisation | ErrorCategory::InvalidParameters => {
                notices.push(
                    self.dispatch_event_to_player(
                        OutgoingEvent::ErrorOccurred(SessionError::InvalidMessage),
                        player_id,
                    ),
                );
                notices.push(self.dispatch_event_to_all_players(OutgoingEvent::Shutdown));
            },
        }
        let shutdown = self.shutdown_all_client_connections();
        let recovery = Recovery { notices, shutdown };
        assert(recovery@.notices =~= self.recovery_from(error_category, player_id).notices);
        recovery
    }

    /// A message of the game engine, in its envelope, for whom
    /// `dispatch_mode` names.
    pub fn dispatch_game_event(&self, dispatch_mode: DispatchMode, event: Vec<u8>) -> (dispatch:
        Dispatch)
        requires
            self.can_reach(dispatch_mode),
        ensures
            dispatch@ == (DispatchView {
                event: OutgoingEventView::Game { event: event@ },
                recipients: self.recipients_of(dispatch_mode),
            }),
    {
        let event = OutgoingEvent::Game { event };
        match dispatch_mode {
            DispatchMode::AllPlayers => self.dispatch_event_to_all_players(event),
            DispatchMode::SinglePlayer { player_id } => self.dispatch_event_to_player(
                event,
                player_id,
            ),
        }
    }
}

/// A game message for one player goes to exactly one connection, the one
/// that serves that player, and a game message for all goes to every
/// connection of the session. Either way there is one envelope, the same
/// for every connection that it is written to: the engine's payload inside
/// `Game`.
pub proof fn lemma_dispatch_routing<C>(
    server: Server<C>,
    dispatch_mode: DispatchMode,
    payload: Seq<u8>,
) where C: ClientConnectionType, Server<C>: ServerGameMode
    requires
        server.can_reach(dispatch_mode),
    ensures
        server.reaction_to(
            IncomingEventView::Game(
                GameServerEvent::DispatchToClient { dispatch_mode, event: payload },
            ),
        ) == (ReactionView::Relay {
            dispatch: DispatchView {
                event: OutgoingEventView::Game { event: payload },
                recipients: server.recipients_of(dispatch_mode),
            },
        }),
        dispatch_mode matches DispatchMode::SinglePlayer { player_id } ==> server.recipients_of(
            dispatch_mode,
        ).len() == 1 && server.recipients_of(dispatch_mode)[0] == server.transport_of(
            player_id,
        ).unwrap(),
        dispatch_mode is AllPlayers ==> server.recipients_of(dispatch_mode) == server.transports(),
{
}

/// In a session of two connected players each player is served by the
/// connection of its own identifier, and the connections of the session are
/// these two, each once: what is sent to one player reaches that player and
/// not the other, and what is sent to all reaches each player once.
pub proof fn lemma_online_routing<C>(server: Server<OnlineConnection<C>>, player_id: u8)
    requires
        player_id == PLAYER_ONE_ID || player_id == PLAYER_TWO_ID,
    ensures
        server.recipients_of(DispatchMode::SinglePlayer { player_id }) == seq![player_id],
        !server.recipients_of(DispatchMode::SinglePlayer { player_id }).contains(
            alternative_player_id(player_id),
        ),
        server.recipients_of(DispatchMode::AllPlayers) == seq![PLAYER_ONE_ID, PLAYER_TWO_ID],
        server.recipients_of(DispatchMode::AllPlayers).no_duplicates(),
        server.recipients_of(DispatchMode::AllPlayers).contains(player_id),
{
    let single = server.recipients_of(DispatchMode::SinglePlayer { player_id });
    assert(single =~= seq![player_id]);
    let all = server.recipients_of(DispatchMode::AllPlayers);
    assert(all[0] == PLAYER_ONE_ID && all[1] == PLAYER_TWO_ID);
}

/// In a session of two players who share a connection everything goes to
/// that one connection, once, whomever it is meant for.
pub proof fn lemma_local_routing<C>(server: Server<LocalConnection<C>>, dispatch_mode: DispatchMode)
    ensures
        server.can_reach(dispatch_mode),
        server.recipients_of(dispatch_mode) == seq![PLAYER_ONE_ID],
{
}

/// A session in progress takes every game message that is for all or for
/// one of the two players, however the players are connected, and the
/// engine's end of the game.
pub proof fn lemma_in_progress_takes_messages_for_players<C>(
    local: Server<LocalConnection<C>>,
    online: Server<OnlineConnection<C>>,
    dispatch_mode: DispatchMode,
    payload: Seq<u8>,
)
    requires
        local.state_of() == State::InProgress,
        online.state_of() == State::InProgress,
        dispatch_mode matches DispatchMode::SinglePlayer { player_id } ==> is_player(player_id),
    ensures
        local.accepts_event(
            IncomingEventView::Game(
                GameServerEvent::DispatchToClient { dispatch_mode, event: payload },
            ),
        ),
        online.accepts_event(
            IncomingEventView::Game(
                GameServerEvent::DispatchToClient { dispatch_mode, event: payload },
            ),
        ),
        local.accepts_event(IncomingEventView::Game(GameServerEvent::GameOver)),
        online.accepts_event(IncomingEventView::Game(GameServerEvent::GameOver)),
{
}

/// When the connection of one of two connected players fails, the other
/// player, and nobody else, is told that the session shuts down, and both
/// connections are shut down.
pub proof fn lemma_disconnection_tells_the_other<C>(
    server: Server<OnlineConnection<C>>,
    player_id: u8,
)
    requires
        player_id == PLAYER_ONE_ID || player_id == PLAYER_TWO_ID,
    ensures
        server.can_recover(ErrorCategory::ReadWrite, player_id),
        server.recovery_from(ErrorCategory::ReadWrite, player_id) == (RecoveryView {
            notices: seq![
                DispatchView {
                    event: OutgoingEventView::Shutdown,
                    recipients: seq![alternative_player_id(player_id)],
                },
            ],
            shutdown: seq![PLAYER_ONE_ID, PLAYER_TWO_ID],
        }),
        alternative_player_id(player_id) != player_id,
{
}

/// When one of two connected players sends what cannot be read, that
/// player is told so first, then both players are told that the session
/// shuts down, and both connections are shut down.
pub proof fn lemma_unreadable_message_is_answered<C>(
    server: Server<OnlineConnection<C>>,
    category: ErrorCategory,
    player_id: u8,
)
    requires
        category is Deserialisation || category is InvalidParameters,
        player_id == PLAYER_ONE_ID || player_id == PLAYER_TWO_ID,
    ensures
        server.can_recover(category, player_id),
        server.recovery_from(category, player_id) == (RecoveryView {
            notices: seq![
                DispatchView {
                    event: OutgoingEventView::ErrorOccurred(SessionError::InvalidMessage),
                    recipients: seq![player_id],
                },
                DispatchView {
                    event: OutgoingEventView::Shutdown,
                    recipients: seq![PLAYER_ONE_ID, PLAYER_TWO_ID],
                },
            ],
            shutdown: seq![PLAYER_ONE_ID, PLAYER_TWO_ID],
        }),
{
}

/// A message for all that fails on its way has reached the players before
/// the one whose write failed, and nobody after: with two connected
/// players, a failure on the first player's connection leaves the second
/// without the message, and a failure on the second player's connection
/// comes after the first player has it. The failure belongs to the player
/// whose write it was.
pub proof fn lemma_failed_write_stops_the_dispatch<C>(
    server: Server<OnlineConnection<C>>,
    event: OutgoingEventView,
    written: nat,
)
    requires
        written < 2,
    ensures
        ({
            let dispatch = DispatchView { event, recipients: server.transports() };
            &&& dispatch.delivered(written).len() == written
            &&& !dispatch.delivered(written).contains(dispatch.recipients[written as int])
            &&& written == 0 ==> dispatch.recipients[0] == PLAYER_ONE_ID && dispatch.delivered(
                written,
            ) == Seq::<u8>::empty()
            &&& written == 1 ==> dispatch.recipients[1] == PLAYER_TWO_ID && dispatch.delivered(
                written,
            ) == seq![PLAYER_ONE_ID]
            &&& dispatch.delivered(2) == dispatch.recipients
        }),
{
    let dispatch = DispatchView { event, recipients: server.transports() };
    assert(dispatch.delivered(0) =~= Seq::<u8>::empty());
    assert(dispatch.delivered(1) =~= seq![PLAYER_ONE_ID]);
    assert(dispatch.delivered(2) =~= dispatch.recipients);
}

/// A session takes an event only where the pair of its state and the event
/// is one of the four that `transition` knows: before the game it takes
/// the signal to begin and nothing else, in the game it takes what its
/// participants and the engine send and no signal, and after the game or a
/// fault it takes nothing. For every other pair it has no answer: nothing
/// is written and the engine is not called.
pub proof fn lemma_session_takes_the_listed_pairs_only<C>(
    server: Server<C>,
    event: IncomingEventView,
) where C: ClientConnectionType, Server<C>: ServerGameMode
    ensures
        server.accepts_event(event) ==> (server.state_of() is PreInitialise && event
            == IncomingEventView::Server(ServerEvent::BeginGame)) || (server.state_of()
            is InProgress && (event is Client || event is Game)),
        is_terminal(server.state_of()) ==> !server.accepts_event(event),
        event == IncomingEventView::Server(ServerEvent::PlayerDisconnected)
            ==> !server.accepts_event(event),
        server.state_of() is PreInitialise && event != IncomingEventView::Server(
            ServerEvent::BeginGame,
        ) ==> !server.accepts_event(event),
        server.state_of() is InProgress && event is Server ==> !server.accepts_event(event),
        server.state_of() is PreInitialise && event == IncomingEventView::Server(
            ServerEvent::BeginGame,
        ) ==> server.accepts_event(event),
        server.state_of() is InProgress && (event is Client || event
            == IncomingEventView::Game(GameServerEvent::GameOver)) ==> server.accepts_event(event),
{
}

/// No event moves a session out of `GameOver` or `Error`: no pair of such a
/// state and an event is one that `transition` knows.
pub proof fn lemma_terminal_states_absorb(state: State, event: IncomingEventView)
    requires
        is_terminal(state),
    ensures
        transition(state, event) is None,
{
}

/// A session moves only along these four edges: from `PreInitialise` to
/// `InProgress` on the signal to begin, and from `InProgress` to itself on a
/// participant's message or a message of the engine, or to `GameOver` on
/// the engine's end of the game. Every other pair has no successor.
pub proof fn lemma_transition_table(state: State, event: IncomingEventView)
    ensures
        transition(state, event) == Some(State::InProgress) <==> (state is PreInitialise && event
            == IncomingEventView::Server(ServerEvent::BeginGame)) || (state is InProgress && (event
            is Client || event matches IncomingEventView::Game(
            GameServerEvent::DispatchToClient { .. },
        ))),
        transition(state, event) == Some(State::GameOver) <==> state is InProgress && event
            == IncomingEventView::Game(GameServerEvent::GameOver),
        transition(state, event) is Some ==> transition(state, event) == Some(State::InProgress)
            || transition(state, event) == Some(State::GameOver),
{
}

} // verus!
