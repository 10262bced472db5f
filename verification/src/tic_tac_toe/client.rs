//! The client side of tic-tac-toe: what the user is shown and asked.

use crate::client::{ClientType, LocalClient, OnlineClient};
use crate::game::{GameClient, GameClientEvent};
use crate::server::player::is_player;
use crate::server::{PLAYER_ONE_ID, PLAYER_TWO_ID};
use crate::text::{number_of, parse_usize, trim, trimmed};
use crate::tic_tac_toe::board::{marks_are_players, BOARD_SIZE};
use crate::tic_tac_toe::{
    names_players_only, ClientEvent, MoveError, Outcome, ServerEvent, ServerEventView,
};
use vstd::prelude::*;

verus! {

/// The mark of a player: a cross for the first, a nought for the second.
pub open spec fn icon_of(player_id: u8) -> char {
    if player_id == PLAYER_ONE_ID {
        'X'
    } else {
        'O'
    }
}

/// What is drawn in a cell: the mark of the player who holds it, or a blank.
pub open spec fn cell_icon(cell: Option<u8>) -> char {
    match cell {
        None => ' ',
        Some(player_id) => icon_of(player_id),
    }
}

/// One row of the board as text: the three cells from `first` on, with bars
/// between them.
pub open spec fn row_text(cells: Seq<Option<u8>>, first: int) -> Seq<char> {
    seq![cell_icon(cells[first])] + " | "@ + seq![cell_icon(cells[first + 1])] + " | "@ + seq![
        cell_icon(cells[first + 2]),
    ] + "\n"@
}

/// The board as text: a rule, the three rows, a rule.
pub open spec fn board_text(cells: Seq<Option<u8>>) -> Seq<char> {
    "_________\n"@ + row_text(cells, 0) + row_text(cells, 3) + row_text(cells, 6)
        + "_________\n"@
}

/// What the user is told when the game has ended with `outcome`.
pub open spec fn game_over_text(outcome: Outcome) -> Seq<char> {
    match outcome {
        Outcome::Draw => "Game over! There was a draw!"@,
        Outcome::WinnerFound { player_id } => "Game over! Player "@ + seq![icon_of(player_id)]
            + " won!"@,
    }
}

/// What the user is told when a move was turned down.
pub open spec fn error_text(error: MoveError) -> Seq<char> {
    "Error: "@ + error.message_of()
}

/// What the user is asked when a move is due.
pub open spec fn move_prompt_text() -> Seq<char> {
    "Input a number between 1 and 9 to make your move:"@
}

/// What the user is told when the answer to the prompt is no number.
pub open spec fn not_a_number_text() -> Seq<char> {
    "That is not a number, please try again."@
}

/// What is to be done once a reply has been shown.
#[derive(Debug, Copy, Clone, PartialEq, Eq, Structural)]
pub enum FollowUp {
    /// Nothing.
    Nothing,
    /// The game is over: tell the client so.
    GameOver,
    /// Ask the user for the move of `player_id`, and send it.
    MakeMove { player_id: u8 },
}

/// What the game has to say about an event: a text to show, and what
/// follows.
#[derive(Debug, PartialEq, Eq)]
pub struct Reply {
    pub text: String,
    pub follow_up: FollowUp,
}

/// A `Reply` with its text as a sequence of characters.
pub struct ReplyView {
    pub text: Seq<char>,
    pub follow_up: FollowUp,
}

impl View for Reply {
    type V = ReplyView;

    open spec fn view(&self) -> ReplyView {
        ReplyView { text: self.text@, follow_up: self.follow_up }
    }
}

/// The client side of tic-tac-toe, for a client of type `C`.
#[derive(Debug)]
pub struct TicTacToeClient<C: ClientType> {
    pub client_type: C,
}

/// The text of one cell.
fn icon_text(cell: Option<u8>) -> (text: &'static str)
    requires
        cell matches Some(player_id) ==> is_player(player_id),
    ensures
        text@ == seq![cell_icon(cell)],
{
    proof {
        reveal_strlit(" ");
        reveal_strlit("X");
        reveal_strlit("O");
    }
    let text = match cell {
        None => " ",
        Some(player_id) => if player_id == PLAYER_ONE_ID {
            "X"
        } else {
            "O"
        },
    };
    assert(text@ =~= seq![cell_icon(cell)]);
    text
}

/// Whether every cell that is held is held by one of the two players.
fn can_draw(board_cells: &[Option<u8>; BOARD_SIZE]) -> (possible: bool)
    ensures
        possible == marks_are_players(board_cells@),
{
    let mut i: usize = 0;
    while i < BOARD_SIZE
        invariant
            i <= BOARD_SIZE,
            forall|j: int|
                0 <= j < i ==> ((#[trigger] board_cells@[j]) matches Some(player_id) ==> is_player(
                    player_id,
                )),
        decreases BOARD_SIZE - i,
    {
        if let Some(player_id) = board_cells[i] {
            if player_id != PLAYER_ONE_ID && player_id != PLAYER_TWO_ID {
                assert(board_cells@[i as int] == Some(player_id));
                return false;
            }
        }
        i += 1;
    }
    true
}

/// Appends one row of the board to `text`.
fn push_row(text: &mut String, board_cells: &[Option<u8>; BOARD_SIZE], first: usize)
    requires
        first + 2 < BOARD_SIZE,
        marks_are_players(board_cells@),
    ensures
        final(text)@ == old(text)@ + row_text(board_cells@, first as int),
{
    text.append(icon_text(board_cells[first]));
    text.append(" | ");
    text.append(icon_text(board_cells[first + 1]));
    text.append(" | ");
    text.append(icon_text(board_cells[first + 2]));
    text.append("\n");
    assert(text@ =~= old(text)@ + row_text(board_cells@, first as int));
}

impl<C: ClientType> TicTacToeClient<C> {
    /// The client side of the game for a client of this type.
    pub open spec fn new_spec(client_type: C) -> TicTacToeClient<C> {
        TicTacToeClient { client_type }
    }

    /// The client side of the game for a client of this type.
    pub fn new(client_type: C) -> (client: TicTacToeClient<C>)
        ensures
            client == Self::new_spec(client_type),
    {
        TicTacToeClient { client_type }
    }

    /// The mark of a player.
    pub fn get_player_icon_by_id(&self, id: u8) -> (icon: char)
        requires
            is_player(id),
        ensures
            icon == icon_of(id),
    {
        if id == PLAYER_ONE_ID {
            'X'
        } else {
            'O'
        }
    }

    /// What is drawn in a cell.
    pub fn get_optional_player_icon_by_id(&self, player_id: Option<u8>) -> (icon: char)
        requires
            player_id matches Some(id) ==> is_player(id),
        ensures
            icon == cell_icon(player_id),
    {
        match player_id {
            None => ' ',
            Some(i) => self.get_player_icon_by_id(i),
        }
    }

    /// The board as text.
    pub fn handle_board_updated_event(&self, board_cells: [Option<u8>; BOARD_SIZE]) -> (text:
        String)
        requires
            marks_are_players(board_cells@),
        ensures
            text@ == board_text(board_cells@),
    {
        let mut text = String::from_str("_________\n");
        push_row(&mut text, &board_cells, 0);
        push_row(&mut text, &board_cells, 3);
        push_row(&mut text, &board_cells, 6);
        text.append("_________\n");
        assert(text@ =~= board_text(board_cells@));
        text
    }

    /// What the user is told when the game has ended.
    pub fn handle_game_over_event(&self, outcome: Outcome) -> (text: String)
        requires
            outcome matches Outcome::WinnerFound { player_id } ==> is_player(player_id),
        ensures
            text@ == game_over_text(outcome),
    {
        match outcome {
            Outcome::Draw => String::from_str("Game over! There was a draw!"),
            Outcome::WinnerFound { player_id } => {
                let mut text = String::from_str("Game over! Player ");
                text.append(icon_text(Some(player_id)));
                text.append(" won!");
                assert(text@ =~= game_over_text(outcome));
                text
            },
        }
    }

    /// What the user is told when a move was turned down.
    pub fn handle_error_occurred_event(&self, error: MoveError) -> (text: String)
        ensures
            text@ == error_text(error),
    {
        let mut text = String::from_str("Error: ");
        let message = error.message();
        text.append(message.as_str());
        text
    }

    /// The move of `player_id` to cell `move_index`, for the server.
    pub fn make_player_move(&self, player_id: u8, move_index: usize) -> (event: GameClientEvent<
        ClientEvent,
    >)
        ensures
            event == (GameClientEvent::DispatchToServer {
                event: ClientEvent::MoveMade { player_id, move_index },
            }),
    {
        GameClientEvent::DispatchToServer { event: ClientEvent::MoveMade { player_id, move_index } }
    }

    /// What the user is asked when a move is due.
    pub fn move_prompt(&self) -> (text: String)
        ensures
            text@ == move_prompt_text(),
    {
        String::from_str("Input a number between 1 and 9 to make your move:")
    }

    /// Reads the user's answer to the prompt: the number that the line
    /// holds between the white space at its ends, or what to tell the user
    /// when it holds none.
    pub fn get_move(&self, input_text: &str) -> (result: Result<usize, String>)
        ensures
            match number_of(trimmed(input_text@), usize::MAX as nat) {
                Some(index) => result == Ok::<usize, String>(index as usize),
                None => result matches Err(text) && text@ == not_a_number_text(),
            },
    {
        match parse_usize(trim(input_text)) {
            Some(index) => Ok(index),
            None => Err(String::from_str("That is not a number, please try again.")),
        }
    }
}

/// What depends on the type of the client.
pub trait ClientTypeEvent {
    /// What the user is told when the game starts.
    spec fn game_started_text(&self) -> Seq<char>;

    /// What a turn of `player_id` asks of this client.
    spec fn turn_reply(&self, player_id: u8) -> ReplyView;

    /// Whether this client can announce a turn of `player_id`.
    spec fn takes_turn_of(&self, player_id: u8) -> bool;

    /// Whether this client can announce a turn of `player_id`.
    fn can_take_turn_of(&self, player_id: u8) -> (possible: bool)
        ensures
            possible == self.takes_turn_of(player_id),
    ;

    /// What the user is told when the game starts.
    fn get_game_started_message(&self) -> (text: String)
        ensures
            text@ == self.game_started_text(),
    ;

    /// What a turn of `player_id` asks of this client.
    fn handle_player_turn_event(&self, player_id: u8) -> (reply: Reply)
        requires
            self.takes_turn_of(player_id),
        ensures
            reply@ == self.turn_reply(player_id),
    ;
}

impl ClientTypeEvent for TicTacToeClient<LocalClient> {
    open spec fn game_started_text(&self) -> Seq<char> {
        "Lets begin."@
    }

    /// Both players sit at this client: whoever's turn it is is named and
    /// asked for a move.
    open spec fn turn_reply(&self, player_id: u8) -> ReplyView {
        ReplyView {
            text: "Player "@ + seq![icon_of(player_id)] + "'s turn!"@,
            follow_up: FollowUp::MakeMove { player_id },
        }
    }

    open spec fn takes_turn_of(&self, player_id: u8) -> bool {
        is_player(player_id)
    }

    fn can_take_turn_of(&self, player_id: u8) -> (possible: bool) {
        player_id == PLAYER_ONE_ID || player_id == PLAYER_TWO_ID
    }

    fn get_game_started_message(&self) -> (text: String) {
        String::from_str("Lets begin.")
    }

    fn handle_player_turn_event(&self, player_id: u8) -> (reply: Reply) {
        let mut text = String::from_str("Player ");
        text.append(icon_text(Some(player_id)));
        text.append("'s turn!");
        assert(text@ =~= self.turn_reply(player_id).text);
        Reply { text, follow_up: FollowUp::MakeMove { player_id } }
    }
}

impl ClientTypeEvent for TicTacToeClient<OnlineClient> {
    open spec fn game_started_text(&self) -> Seq<char> {
        "All players connected, lets begin."@
    }

    /// One player sits at this client: it is asked for a move when the turn
    /// is its own, and told to wait otherwise.
    open spec fn turn_reply(&self, player_id: u8) -> ReplyView {
        if player_id != self.client_type.id {
            ReplyView {
                text: "Waiting for other player to make a move."@,
                follow_up: FollowUp::Nothing,
            }
        } else {
            ReplyView { text: "It's your turn!"@, follow_up: FollowUp::MakeMove { player_id } }
        }
    }

    open spec fn takes_turn_of(&self, player_id: u8) -> bool {
        true
    }

    fn can_take_turn_of(&self, player_id: u8) -> (possible: bool) {
        true
    }

    fn get_game_started_message(&self) -> (text: String) {
        String::from_str("All players connected, lets begin.")
    }

    fn handle_player_turn_event(&self, player_id: u8) -> (reply: Reply) {
        if player_id != self.client_type.id {
            return Reply {
                text: String::from_str("Waiting for other player to make a move."),
                follow_up: FollowUp::Nothing,
            };
        }
        Reply {
            text: String::from_str("It's your turn!"),
            follow_up: FollowUp::MakeMove { player_id },
        }
    }
}

impl<C> TicTacToeClient<C> where C: ClientType, TicTacToeClient<C>: ClientTypeEvent {
    /// Whether the client can show `event`: every player that it names or
    /// draws is one of the two, and a turn is one that the client takes.
    pub open spec fn shows(&self, event: ServerEventView) -> bool {
        match event {
            ServerEventView::BoardUpdated { board_cells } => marks_are_players(board_cells),
            ServerEventView::PlayerTurn { player_id } => self.takes_turn_of(player_id),
            ServerEventView::GameOver { outcome } => outcome matches Outcome::WinnerFound {
                player_id,
            } ==> is_player(player_id),
            ServerEventView::ErrorOccurred { error } => true,
        }
    }

    /// Whether the client can show `event`.
    pub fn can_show(&self, event: &ServerEvent) -> (possible: bool)
        ensures
            possible == self.shows(event@),
    {
        match event {
            ServerEvent::BoardUpdated { board_cells } => can_draw(board_cells),
            ServerEvent::PlayerTurn { player_id } => self.can_take_turn_of(*player_id),
            ServerEvent::GameOver { outcome } => match outcome {
                Outcome::Draw => true,
                Outcome::WinnerFound { player_id } => *player_id == PLAYER_ONE_ID || *player_id
                    == PLAYER_TWO_ID,
            },
            ServerEvent::ErrorOccurred { error: _ } => true,
        }
    }

    /// What the client shows for `event`, and what follows.
    pub open spec fn reply_to(&self, event: ServerEventView) -> ReplyView {
        match event {
            ServerEventView::BoardUpdated { board_cells } => ReplyView {
                text: board_text(board_cells),
                follow_up: FollowUp::Nothing,
            },
            ServerEventView::PlayerTurn { player_id } => self.turn_reply(player_id),
            ServerEventView::GameOver { outcome } => ReplyView {
                text: game_over_text(outcome),
                follow_up: FollowUp::GameOver,
            },
            ServerEventView::ErrorOccurred { error } => ReplyView {
                text: error_text(error),
                follow_up: FollowUp::Nothing,
            },
        }
    }
}

impl<C> GameClient for TicTacToeClient<C> where C: ClientType, TicTacToeClient<C>: ClientTypeEvent {
    type Incoming = ServerEvent;

    type Reply = Reply;

    open spec fn started_text(&self) -> Seq<char> {
        self.game_started_text()
    }

    fn handle_game_started_event(&self) -> (text: String) {
        self.get_game_started_message()
    }

    open spec fn takes(&self, event: ServerEvent) -> bool {
        self.shows(event@)
    }

    fn handle_event(&mut self, event: ServerEvent) -> (reply: Reply)
        ensures
            reply@ == old(self).reply_to(event@),
            *final(self) == *old(self),
    {
        match event {
            ServerEvent::GameOver { outcome } => Reply {
                text: self.handle_game_over_event(outcome),
                follow_up: FollowUp::GameOver,
            },
            ServerEvent::BoardUpdated { board_cells } => Reply {
                text: self.handle_board_updated_event(board_cells),
                follow_up: FollowUp::Nothing,
            },
            ServerEvent::ErrorOccurred { error } => Reply {
                text: self.handle_error_occurred_event(error),
                follow_up: FollowUp::Nothing,
            },
            ServerEvent::PlayerTurn { player_id } => self.handle_player_turn_event(player_id),
        }
    }
}

/// A client shows whatever names and draws nobody but the two players,
/// wherever it sits: it shows everything that the engine of a well-formed
/// game emits.
pub proof fn lemma_clients_show_what_concerns_players(
    local: TicTacToeClient<LocalClient>,
    online: TicTacToeClient<OnlineClient>,
    event: ServerEventView,
)
    requires
        names_players_only(event),
    ensures
        local.shows(event),
        online.shows(event),
{
}

} // verus!
