//! Tic-tac-toe: what the players and the engine tell each other, and the
//! engine itself.

use crate::game::{views, GameServer, GameServerEvent};
use crate::server::{get_alternative_player_id, DispatchMode, PLAYER_ONE_ID};
use crate::server::player::{alternative_player_id, is_player};
use crate::tic_tac_toe::board::{
    first_line_owner, line_owner, marks_are_players, outcome_of, winning_lines, with_move, Board,
};
use vstd::prelude::*;

pub mod board;
pub mod client;

pub use crate::tic_tac_toe::board::BOARD_SIZE;
pub use crate::tic_tac_toe::client::{ClientTypeEvent, TicTacToeClient};

verus! {

/// How a finished game ended.
#[derive(PartialEq, Eq, Structural, Debug, Copy, Clone)]
pub enum Outcome {
    Draw,
    WinnerFound { player_id: u8 },
}

/// Why a move was turned down.
#[derive(PartialEq, Eq, Structural, Debug, Copy, Clone)]
pub enum MoveError {
    InvalidCellIndex,
    CellOccupied,
    UnexpectedPlayer,
}

impl MoveError {
    /// What the user is told about the error.
    pub open spec fn message_of(self) -> Seq<char> {
        match self {
            MoveError::InvalidCellIndex => "The input should be a number between 1 and 9."@,
            MoveError::CellOccupied => "This cell is already occupied."@,
            MoveError::UnexpectedPlayer => "It's not your turn."@,
        }
    }

    /// What the user is told about the error.
    pub fn message(&self) -> (text: String)
        ensures
            text@ == self.message_of(),
    {
        match self {
            MoveError::InvalidCellIndex => String::from_str(
                "The input should be a number between 1 and 9.",
            ),
            MoveError::CellOccupied => String::from_str("This cell is already occupied."),
            MoveError::UnexpectedPlayer => String::from_str("It's not your turn."),
        }
    }
}

/// What the engine tells the participants.
#[derive(Copy, Clone, Debug, PartialEq, Eq)]
pub enum ServerEvent {
    BoardUpdated { board_cells: [Option<u8>; BOARD_SIZE] },
    PlayerTurn { player_id: u8 },
    GameOver { outcome: Outcome },
    ErrorOccurred { error: MoveError },
}

/// A `ServerEvent` with the board as a sequence of cells.
pub enum ServerEventView {
    BoardUpdated { board_cells: Seq<Option<u8>> },
    PlayerTurn { player_id: u8 },
    GameOver { outcome: Outcome },
    ErrorOccurred { error: MoveError },
}

impl View for ServerEvent {
    type V = ServerEventView;

    open spec fn view(&self) -> ServerEventView {
        match *self {
            ServerEvent::BoardUpdated { board_cells } => ServerEventView::BoardUpdated {
                board_cells: board_cells@,
            },
            ServerEvent::PlayerTurn { player_id } => ServerEventView::PlayerTurn { player_id },
            ServerEvent::GameOver { outcome } => ServerEventView::GameOver { outcome },
            ServerEvent::ErrorOccurred { error } => ServerEventView::ErrorOccurred { error },
        }
    }
}

/// What a participant tells the engine.
#[derive(Debug, PartialEq, Eq, Structural, Copy, Clone)]
pub enum ClientEvent {
    MoveMade { player_id: u8, move_index: usize },
}

/// The state of a game: whose turn it is and what each cell holds.
pub struct GameView {
    pub current_player: u8,
    pub cells: Seq<Option<u8>>,
}

/// Why the move of `player_id` to cell `move_index` is turned down in
/// `game`, if it is: first a player out of turn, then an index off the
/// board, then a cell already marked.
pub open spec fn move_error(game: GameView, player_id: u8, move_index: usize) -> Option<MoveError> {
    if player_id != game.current_player {
        Some(MoveError::UnexpectedPlayer)
    } else if move_index >= BOARD_SIZE {
        Some(MoveError::InvalidCellIndex)
    } else if game.cells[move_index as int] is Some {
        Some(MoveError::CellOccupied)
    } else {
        None
    }
}

/// The game after `event`. A move that is turned down changes nothing. An
/// accepted move marks the cell, and passes the turn on unless it ends the
/// game.
pub open spec fn game_after(game: GameView, event: ClientEvent) -> GameView {
    match event {
        ClientEvent::MoveMade { player_id, move_index } => {
            if move_error(game, player_id, move_index) is Some {
                game
            } else {
                let cells = with_move(game.cells, player_id, move_index as int);
                GameView {
                    current_player: if outcome_of(cells) is None {
                        alternative_player_id(game.current_player)
                    } else {
                        game.current_player
                    },
                    cells,
                }
            }
        },
    }
}

impl GameView {
    /// Whether this is a game as the engine keeps it: the turn is with one
    /// of the two players, the board has `BOARD_SIZE` cells, and every mark
    /// on it is a player's.
    pub open spec fn well_formed(self) -> bool {
        &&& is_player(self.current_player)
        &&& self.cells.len() == BOARD_SIZE
        &&& marks_are_players(self.cells)
    }
}

/// Whether a message of the engine names and draws nobody but the two
/// players.
pub open spec fn names_players_only(event: ServerEventView) -> bool {
    match event {
        ServerEventView::BoardUpdated { board_cells } => marks_are_players(board_cells),
        ServerEventView::PlayerTurn { player_id } => is_player(player_id),
        ServerEventView::GameOver { outcome } => outcome matches Outcome::WinnerFound { player_id }
            ==> is_player(player_id),
        ServerEventView::ErrorOccurred { error } => true,
    }
}

/// Whether what the engine emits is for one of the two players or for all,
/// and names and draws nobody but the two players.
pub open spec fn concerns_players_only(event: GameServerEvent<ServerEventView>) -> bool {
    event matches GameServerEvent::DispatchToClient { dispatch_mode, event } ==> ({
        &&& names_players_only(event)
        &&& dispatch_mode matches DispatchMode::SinglePlayer { player_id } ==> is_player(player_id)
    })
}

/// A new game is well formed, and a well-formed game stays so whatever
/// event it is handed.
pub proof fn lemma_game_stays_well_formed(game: GameView, event: ClientEvent)
    requires
        game.well_formed(),
    ensures
        (GameView {
            current_player: PLAYER_ONE_ID,
            cells: Seq::new(BOARD_SIZE as nat, |i: int| None::<u8>),
        }).well_formed(),
        game_after(game, event).well_formed(),
{
}

/// The winner of a won board holds a cell of it.
proof fn lemma_winner_holds_a_cell(cells: Seq<Option<u8>>, player_id: u8)
    requires
        cells.len() == BOARD_SIZE,
        outcome_of(cells) == Some(Outcome::WinnerFound { player_id }),
    ensures
        exists|i: int| 0 <= i < cells.len() && #[trigger] cells[i] == Some(player_id),
{
    reveal_with_fuel(first_line_owner, 9);
    let lines = winning_lines();
    let i = if line_owner(cells, lines[0]) is Some {
        0
    } else if line_owner(cells, lines[1]) is Some {
        1
    } else if line_owner(cells, lines[2]) is Some {
        2
    } else if line_owner(cells, lines[3]) is Some {
        3
    } else if line_owner(cells, lines[4]) is Some {
        4
    } else if line_owner(cells, lines[5]) is Some {
        5
    } else if line_owner(cells, lines[6]) is Some {
        6
    } else {
        7int
    };
    assert(line_owner(cells, lines[i]) == Some(player_id));
    assert(cells[lines[i].0] == Some(player_id));
}

/// Whatever a well-formed game emits, at its beginning and in answer to any
/// event, is for one of the two players or for all, and names and draws
/// nobody but the two players: a session can send it on, and a client can
/// show it.
pub proof fn lemma_engine_concerns_players_only(game: GameView, event: ClientEvent, i: int)
    requires
        game.well_formed(),
    ensures
        0 <= i < events_at_begin(game).len() ==> concerns_players_only(events_at_begin(game)[i]),
        0 <= i < events_after(game, event).len() ==> concerns_players_only(
            events_after(game, event)[i],
        ),
{
    lemma_game_stays_well_formed(game, event);
    let after = game_after(game, event);
    match outcome_of(after.cells) {
        Some(Outcome::WinnerFound { player_id }) => {
            lemma_winner_holds_a_cell(after.cells, player_id);
        },
        _ => {},
    }
}

/// A mark, once made, stays: no event empties a cell or hands it to the
/// other player, and a board of nine cells stays one.
pub proof fn lemma_marks_stay(game: GameView, event: ClientEvent, cell: int)
    requires
        game.cells.len() == BOARD_SIZE,
        0 <= cell < BOARD_SIZE,
        game.cells[cell] is Some,
    ensures
        game_after(game, event).cells.len() == BOARD_SIZE,
        game_after(game, event).cells[cell] == game.cells[cell],
{
}

/// A move that is turned down changes nothing, and an accepted move that
/// does not end the game passes the turn to the other player.
pub proof fn lemma_turns_alternate(game: GameView, player_id: u8, move_index: usize)
    ensures
        move_error(game, player_id, move_index) is Some ==> game_after(
            game,
            ClientEvent::MoveMade { player_id, move_index },
        ) == game,
        move_error(game, player_id, move_index) is None ==> ({
            let after = game_after(game, ClientEvent::MoveMade { player_id, move_index });
            &&& player_id == game.current_player
            &&& after.cells == with_move(game.cells, player_id, move_index as int)
            &&& outcome_of(after.cells) is None ==> after.current_player == alternative_player_id(
                player_id,
            )
            &&& outcome_of(after.cells) is Some ==> after.current_player == player_id
        }),
{
}

/// A message for every participant.
pub open spec fn to_all(event: ServerEventView) -> GameServerEvent<ServerEventView> {
    GameServerEvent::DispatchToClient { dispatch_mode: DispatchMode::AllPlayers, event }
}

/// A message for one participant.
pub open spec fn to_one(player_id: u8, event: ServerEventView) -> GameServerEvent<
    ServerEventView,
> {
    GameServerEvent::DispatchToClient {
        dispatch_mode: DispatchMode::SinglePlayer { player_id },
        event,
    }
}

/// What the engine emits when the game begins: the board, then whose turn it
/// is, both to everyone.
pub open spec fn events_at_begin(game: GameView) -> Seq<GameServerEvent<ServerEventView>> {
    seq![
        to_all(ServerEventView::BoardUpdated { board_cells: game.cells }),
        to_all(ServerEventView::PlayerTurn { player_id: game.current_player }),
    ]
}

/// What the engine emits in answer to `event`.
///
/// A move that is turned down yields the reason and a new prompt, both for
/// the player whose turn it is. An accepted move yields the new board for
/// everyone, followed either by the next turn, or by the outcome and the end
/// of the game.
pub open spec fn events_after(game: GameView, event: ClientEvent) -> Seq<
    GameServerEvent<ServerEventView>,
> {
    match event {
        ClientEvent::MoveMade { player_id, move_index } => {
            match move_error(game, player_id, move_index) {
                Some(error) => seq![
                    to_one(game.current_player, ServerEventView::ErrorOccurred { error }),
                    to_one(
                        game.current_player,
                        ServerEventView::PlayerTurn { player_id: game.current_player },
                    ),
                ],
                None => {
                    let cells = with_move(game.cells, player_id, move_index as int);
                    match outcome_of(cells) {
                        None => seq![
                            to_all(ServerEventView::BoardUpdated { board_cells: cells }),
                            to_all(
                                ServerEventView::PlayerTurn {
                                    player_id: alternative_player_id(game.current_player),
                                },
                            ),
                        ],
                        Some(outcome) => seq![
                            to_all(ServerEventView::BoardUpdated { board_cells: cells }),
                            to_all(ServerEventView::GameOver { outcome }),
                            GameServerEvent::GameOver,
                        ],
                    }
                },
            }
        },
    }
}

/// The tic-tac-toe engine: the board and the player whose turn it is.
pub struct TicTacToeServer {
    current_player: u8,
    board: Board,
}

impl View for TicTacToeServer {
    type V = GameView;

    closed spec fn view(&self) -> GameView {
        GameView { current_player: self.current_player, cells: self.board@ }
    }
}

impl TicTacToeServer {
    /// Every game has a board of `BOARD_SIZE` cells.
    pub proof fn lemma_board_size(&self)
        ensures
            self@.cells.len() == BOARD_SIZE,
    {
        self.board.lemma_size();
    }

    /// A new game: an empty board, and player one to move.
    pub fn new() -> (server: TicTacToeServer)
        ensures
            server@ == (GameView {
                current_player: PLAYER_ONE_ID,
                cells: Seq::new(BOARD_SIZE as nat, |i: int| None::<u8>),
            }),
    {
        TicTacToeServer { current_player: PLAYER_ONE_ID, board: Board::new() }
    }

    /// Passes the turn to the other player.
    fn swap_player(&mut self)
        ensures
            final(self)@ == (GameView {
                current_player: alternative_player_id(old(self)@.current_player),
                ..old(self)@
            }),
    {
        self.current_player = get_alternative_player_id(self.current_player);
    }

    /// The current board, for everyone.
    fn dispatch_board_updated_event(&self) -> (event: GameServerEvent<ServerEvent>)
        ensures
            event@ == to_all(ServerEventView::BoardUpdated { board_cells: self@.cells }),
    {
        let board_cells = self.board.get_cell_occupiers();
        GameServerEvent::DispatchToClient {
            dispatch_mode: DispatchMode::AllPlayers,
            event: ServerEvent::BoardUpdated { board_cells },
        }
    }

    /// Whose turn it is, for whom `dispatch_mode` names.
    fn dispatch_player_turn_event(&self, dispatch_mode: DispatchMode) -> (event: GameServerEvent<
        ServerEvent,
    >)
        ensures
            event@ == (GameServerEvent::DispatchToClient {
                dispatch_mode,
                event: ServerEventView::PlayerTurn { player_id: self@.current_player },
            }),
    {
        GameServerEvent::DispatchToClient {
            dispatch_mode,
            event: ServerEvent::PlayerTurn { player_id: self.current_player },
        }
    }

    /// Marks the cell for the player, unless the move is turned down.
    fn handle_move_made_event(&mut self, player_id: u8, move_index: usize) -> (result: Result<
        (),
        MoveError,
    >)
        ensures
            final(self)@.current_player == old(self)@.current_player,
            match move_error(old(self)@, player_id, move_index) {
                Some(error) => result == Err::<(), MoveError>(error) && final(self)@ == old(self)@,
                None => result is Ok && final(self)@.cells == with_move(
                    old(self)@.cells,
                    player_id,
                    move_index as int,
                ),
            },
    {
        if player_id != self.current_player {
            return Err(MoveError::UnexpectedPlayer);
        }
        self.board.add_move(player_id, move_index)
    }
}

impl GameServer for TicTacToeServer {
    type Incoming = ClientEvent;

    type Outgoing = ServerEvent;

    /// Announces the board and the first turn to everyone.
    fn begin(&self) -> (events: Vec<GameServerEvent<ServerEvent>>)
        ensures
            views(events@) == events_at_begin(self@),
    {
        let mut events = Vec::new();
        events.push(self.dispatch_board_updated_event());
        events.push(self.dispatch_player_turn_event(DispatchMode::AllPlayers));
        assert(views(events@) =~= events_at_begin(self@));
        events
    }

    /// Plays the move that `event` holds and says what follows from it.
    fn handle_event(&mut self, event: ClientEvent) -> (events: Vec<GameServerEvent<ServerEvent>>)
        ensures
            final(self)@ == game_after(old(self)@, event),
            views(events@) == events_after(old(self)@, event),
    {
        let mut events = Vec::new();
        match event {
            ClientEvent::MoveMade { player_id, move_index } => {
                if let Err(error) = self.handle_move_made_event(player_id, move_index) {
                    events.push(
                        GameServerEvent::DispatchToClient {
                            dispatch_mode: DispatchMode::SinglePlayer {
                                player_id: self.current_player,
                            },
                            event: ServerEvent::ErrorOccurred { error },
                        },
                    );
                    events.push(
                        self.dispatch_player_turn_event(
                            DispatchMode::SinglePlayer { player_id: self.current_player },
                        ),
                    );
                    assert(views(events@) =~= events_after(old(self)@, event));
                    return events;
                }
                events.push(self.dispatch_board_updated_event());
                match self.board.determine_outcome() {
                    None => {
                        self.swap_player();
                        events.push(self.dispatch_player_turn_event(DispatchMode::AllPlayers));
                    },
                    Some(outcome) => {
                        events.push(
                            GameServerEvent::DispatchToClient {
                                dispatch_mode: DispatchMode::AllPlayers,
                                event: ServerEvent::GameOver { outcome },
                            },
                        );
                        events.push(GameServerEvent::GameOver);
                    },
                }
                assert(views(events@) =~= events_after(old(self)@, event));
                events
            },
        }
    }
}

} // verus!
