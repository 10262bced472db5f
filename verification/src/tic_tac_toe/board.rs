//! The board of tic-tac-toe and the rule that decides a game.

use crate::server::player::is_player;
use crate::tic_tac_toe::{MoveError, Outcome};
use vstd::prelude::*;

verus! {

/// Number of cells on the board.
pub const BOARD_SIZE: usize = 9;

/// What one cell holds.
#[derive(Copy, Clone, PartialEq, Eq, Structural, Debug)]
pub enum BoardCellState {
    Empty,
    Occupied { player_id: u8 },
}

/// One cell of the board.
#[derive(Copy, Clone, PartialEq, Eq, Structural, Debug)]
pub struct BoardCell {
    pub state: BoardCellState,
}

impl BoardCell {
    /// The player whose mark is in the cell, if any.
    pub open spec fn occupier(self) -> Option<u8> {
        match self.state {
            BoardCellState::Empty => None,
            BoardCellState::Occupied { player_id } => Some(player_id),
        }
    }

    /// An empty cell.
    pub fn new() -> (cell: BoardCell)
        ensures
            cell.occupier() is None,
    {
        BoardCell { state: BoardCellState::Empty }
    }

    /// Whether a player has marked the cell.
    pub fn is_occupied(&self) -> (occupied: bool)
        ensures
            occupied == self.occupier() is Some,
    {
        match self.state {
            BoardCellState::Occupied { player_id: _ } => true,
            BoardCellState::Empty => false,
        }
    }

    /// The player whose mark is in the cell. The cell must not be empty.
    pub fn get_occupying_player_id(&self) -> (player_id: u8)
        requires
            self.occupier() is Some,
        ensures
            self.occupier() == Some(player_id),
    {
        match self.state {
            BoardCellState::Occupied { player_id } => player_id,
            BoardCellState::Empty => unreached(),
        }
    }
}

/// The eight lines of three cells that win the game, in the order in which
/// they are examined: those through cell 0, the middle column, those from
/// cell 2, the middle row and the bottom row.
pub open spec fn winning_lines() -> Seq<(int, int, int)> {
    seq![
        (0int, 1int, 2int),
        (0int, 3int, 6int),
        (0int, 4int, 8int),
        (1int, 4int, 7int),
        (2int, 5int, 8int),
        (2int, 4int, 6int),
        (3int, 4int, 5int),
        (6int, 7int, 8int),
    ]
}

/// The player who holds all three cells of `line`, if one does.
pub open spec fn line_owner(cells: Seq<Option<u8>>, line: (int, int, int)) -> Option<u8> {
    if cells[line.0] is Some && cells[line.1] == cells[line.0] && cells[line.2] == cells[line.0] {
        cells[line.0]
    } else {
        None
    }
}

/// The owner of the first line, at or after position `from` of
/// `winning_lines`, that one player holds entirely.
pub open spec fn first_line_owner(cells: Seq<Option<u8>>, from: int) -> Option<u8>
    decreases winning_lines().len() - from,
{
    if from < 0 || from >= winning_lines().len() {
        None
    } else if line_owner(cells, winning_lines()[from]) is Some {
        line_owner(cells, winning_lines()[from])
    } else {
        first_line_owner(cells, from + 1)
    }
}

/// Whether every cell is marked.
pub open spec fn is_full(cells: Seq<Option<u8>>) -> bool {
    forall|i: int| 0 <= i < cells.len() ==> (#[trigger] cells[i]) is Some
}

/// Whether every mark on the board is that of one of the two players.
pub open spec fn marks_are_players(cells: Seq<Option<u8>>) -> bool {
    forall|i: int|
        0 <= i < cells.len() ==> ((#[trigger] cells[i]) matches Some(player_id) ==> is_player(
            player_id,
        ))
}

/// Whether `player_id` holds all three cells of some winning line.
pub open spec fn holds_line(cells: Seq<Option<u8>>, player_id: u8) -> bool {
    exists|i: int|
        0 <= i < winning_lines().len() && #[trigger] line_owner(cells, winning_lines()[i]) == Some(
            player_id,
        )
}

/// The outcome that a board with the given cells has reached: a win for the
/// owner of the first complete line, else a draw when the board is full, else
/// none yet.
pub open spec fn outcome_of(cells: Seq<Option<u8>>) -> Option<Outcome> {
    match first_line_owner(cells, 0) {
        Some(player_id) => Some(Outcome::WinnerFound { player_id }),
        None => if is_full(cells) {
            Some(Outcome::Draw)
        } else {
            None
        },
    }
}

/// The cells after `player_id` has marked cell `cell_index`.
pub open spec fn with_move(cells: Seq<Option<u8>>, player_id: u8, cell_index: int) -> Seq<
    Option<u8>,
> {
    cells.update(cell_index, Some(player_id))
}

/// A board on which one player holds a line and nobody else does is won by
/// that player, whichever line it is and whatever else is on the board.
pub proof fn lemma_sole_line_holder_wins(cells: Seq<Option<u8>>, player_id: u8)
    requires
        holds_line(cells, player_id),
        forall|other: u8| other != player_id ==> !holds_line(cells, other),
    ensures
        outcome_of(cells) == Some(Outcome::WinnerFound { player_id }),
{
    reveal_with_fuel(first_line_owner, 9);
    let lines = winning_lines();
    let held = choose|i: int|
        0 <= i < winning_lines().len() && #[trigger] line_owner(cells, winning_lines()[i]) == Some(
            player_id,
        );
    assert forall|i: int| 0 <= i < lines.len() implies (#[trigger] line_owner(cells, lines[i]))
        is None || line_owner(cells, lines[i]) == Some(player_id) by {
        if line_owner(cells, lines[i]) is Some {
            let other = line_owner(cells, lines[i])->0;
            if other != player_id {
                assert(holds_line(cells, other));
            }
        }
    }
    assert(line_owner(cells, lines[held]) == Some(player_id));
}

/// A board on which nobody holds a line has no winner: it is a draw when
/// it is full, and the game goes on otherwise.
pub proof fn lemma_no_line_no_winner(cells: Seq<Option<u8>>)
    requires
        forall|player_id: u8| !holds_line(cells, player_id),
    ensures
        outcome_of(cells) == if is_full(cells) {
            Some(Outcome::Draw)
        } else {
            None
        },
{
    reveal_with_fuel(first_line_owner, 9);
    let lines = winning_lines();
    assert forall|i: int| 0 <= i < lines.len() implies (#[trigger] line_owner(cells, lines[i]))
        is None by {
        if line_owner(cells, lines[i]) is Some {
            assert(holds_line(cells, line_owner(cells, lines[i])->0));
        }
    }
}

/// A three by three board of cells, numbered row by row from 0.
pub struct Board {
    cells: [BoardCell; BOARD_SIZE],
}

impl View for Board {
    type V = Seq<Option<u8>>;

    /// For each cell, the player whose mark it holds.
    closed spec fn view(&self) -> Seq<Option<u8>> {
        Seq::new(BOARD_SIZE as nat, |i: int| self.cells[i].occupier())
    }
}

impl Board {
    /// Every board has `BOARD_SIZE` cells.
    pub proof fn lemma_size(&self)
        ensures
            self@.len() == BOARD_SIZE,
    {
    }

    /// An empty board.
    pub fn new() -> (board: Board)
        ensures
            board@ == Seq::new(BOARD_SIZE as nat, |i: int| None::<u8>),
    {
        let board = Board { cells: [BoardCell::new();BOARD_SIZE] };
        assert(board@ =~= Seq::new(BOARD_SIZE as nat, |i: int| None::<u8>));
        board
    }

    /// The player in each cell, in cell order.
    pub fn get_cell_occupiers(&self) -> (occupiers: [Option<u8>; BOARD_SIZE])
        ensures
            occupiers@ == self@,
    {
        let mut occupiers: [Option<u8>; BOARD_SIZE] = [None;BOARD_SIZE];
        let mut i: usize = 0;
        while i < BOARD_SIZE
            invariant
                i <= BOARD_SIZE,
                forall|j: int| 0 <= j < i ==> occupiers@[j] == self@[j],
            decreases BOARD_SIZE - i,
        {
            let occupier = match self.cells[i].state {
                BoardCellState::Empty => None,
                BoardCellState::Occupied { player_id } => Some(player_id),
            };
            occupiers[i] = occupier;
            i += 1;
        }
        assert(occupiers@ =~= self@);
        occupiers
    }

    /// Marks cell `cell_index` for `player_id`. An index off the board and a
    /// cell already marked are turned down, and the board stays as it was.
    pub fn add_move(&mut self, player_id: u8, cell_index: usize) -> (result: Result<(), MoveError>)
        ensures
            final(self)@.len() == BOARD_SIZE,
            cell_index >= BOARD_SIZE ==> result == Err::<(), MoveError>(MoveError::InvalidCellIndex)
                && final(self)@ == old(self)@,
            cell_index < BOARD_SIZE && old(self)@[cell_index as int] is Some ==> result == Err::<
                (),
                MoveError,
            >(MoveError::CellOccupied) && final(self)@ == old(self)@,
            cell_index < BOARD_SIZE && old(self)@[cell_index as int] is None ==> result is Ok
                && final(self)@ == with_move(old(self)@, player_id, cell_index as int),
    {
        if cell_index >= BOARD_SIZE {
            return Err(MoveError::InvalidCellIndex);
        }
        match self.cells[cell_index].state {
            BoardCellState::Empty => {
                self.cells[cell_index] = BoardCell {
                    state: BoardCellState::Occupied { player_id },
                };
                assert(self@ =~= with_move(old(self)@, player_id, cell_index as int));
                Ok(())
            },
            BoardCellState::Occupied { player_id: _ } => Err(MoveError::CellOccupied),
        }
    }

    /// The player who holds cells `a`, `b` and `c`, if one holds all three.
    fn line_holder(&self, a: usize, b: usize, c: usize) -> (holder: Option<u8>)
        requires
            a < BOARD_SIZE,
            b < BOARD_SIZE,
            c < BOARD_SIZE,
        ensures
            holder == line_owner(self@, (a as int, b as int, c as int)),
    {
        if self.cells[a].is_occupied() && self.cells[a] == self.cells[b] && self.cells[a]
            == self.cells[c] {
            Some(self.cells[a].get_occupying_player_id())
        } else {
            None
        }
    }

    /// Whether every cell is marked.
    fn is_complete(&self) -> (full: bool)
        ensures
            full == is_full(self@),
    {
        let mut i: usize = 0;
        while i < BOARD_SIZE
            invariant
                i <= BOARD_SIZE,
                forall|j: int| 0 <= j < i ==> (#[trigger] self@[j]) is Some,
            decreases BOARD_SIZE - i,
        {
            if !self.cells[i].is_occupied() {
                assert(self@[i as int] is None);
                return false;
            }
            i += 1;
        }
        true
    }

    /// The outcome that the board has reached. A player who holds a whole row,
    /// column or diagonal has won; a full board without such a line is a draw;
    /// otherwise the game goes on and there is no outcome yet.
    pub fn determine_outcome(&self) -> (outcome: Option<Outcome>)
        ensures
            outcome == outcome_of(self@),
    {
        proof {
            reveal_with_fuel(first_line_owner, 9);
        }
        if let Some(player_id) = self.line_holder(0, 1, 2) {
            return Some(Outcome::WinnerFound { player_id });
        }
        if let Some(player_id) = self.line_holder(0, 3, 6) {
            return Some(Outcome::WinnerFound { player_id });
        }
        if let Some(player_id) = self.line_holder(0, 4, 8) {
            return Some(Outcome::WinnerFound { player_id });
        }
        if let Some(player_id) = self.line_holder(1, 4, 7) {
            return Some(Outcome::WinnerFound { player_id });
        }
        if let Some(player_id) = self.line_holder(2, 5, 8) {
            return Some(Outcome::WinnerFound { player_id });
        }
        if let Some(player_id) = self.line_holder(2, 4, 6) {
            return Some(Outcome::WinnerFound { player_id });
        }
        if let Some(player_id) = self.line_holder(3, 4, 5) {
            return Some(Outcome::WinnerFound { player_id });
        }
        if let Some(player_id) = self.line_holder(6, 7, 8) {
            return Some(Outcome::WinnerFound { player_id });
        }
        if self.is_complete() {
            return Some(Outcome::Draw);
        }
        None
    }
}

} // verus!
