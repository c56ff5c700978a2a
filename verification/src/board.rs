use vstd::array::spec_array_update;
use vstd::prelude::*;

verus! {

/// One of the two marks of the game.
#[derive(Clone, Copy, Debug, PartialEq, Eq, Structural)]
pub enum Player {
    X,
    O,
}

impl Player {
    /// The mark that moves after `self`.
    pub open spec fn spec_other(self) -> Player {
        match self {
            Player::X => Player::O,
            Player::O => Player::X,
        }
    }

    /// The mark that moves after `self`.
    #[verifier::when_used_as_spec(spec_other)]
    pub fn other(self) -> (next: Player)
        ensures
            next == self.spec_other(),
    {
        match self {
            Player::X => Player::O,
            Player::O => Player::X,
        }
    }
}

/// The grid of three rows and three columns: `board[row][col]` is the mark in that cell, if any.
pub type Board = [[Option<Player>; 3]; 3];

/// Number of lines that win the game: three rows, three columns, two diagonals.
pub const LINES: usize = 8;

/// The mark in the cell at `row`, `col`.
pub open spec fn cell(board: Board, row: int, col: int) -> Option<Player> {
    board[row][col]
}

/// Position `(row, col)` of the `i`-th cell of line `k`.
///
/// Lines 0 to 2 are the rows from the top, lines 3 to 5 the columns from the
/// left, line 6 is the diagonal from the top left and line 7 the diagonal
/// from the top right.
pub open spec fn line_cell(k: int, i: int) -> (int, int) {
    if k < 3 {
        (k, i)
    } else if k < 6 {
        (i, k - 3)
    } else if k == 6 {
        (i, i)
    } else {
        (i, 2 - i)
    }
}

/// The mark in the `i`-th cell of line `k`.
pub open spec fn line_mark(board: Board, k: int, i: int) -> Option<Player> {
    cell(board, line_cell(k, i).0, line_cell(k, i).1)
}

/// The player whose mark fills all three cells of line `k`, if there is one.
pub open spec fn line_owner(board: Board, k: int) -> Option<Player> {
    let first = line_mark(board, k, 0);
    if first is Some && line_mark(board, k, 1) == first && line_mark(board, k, 2) == first {
        first
    } else {
        None
    }
}

/// The owner of the first owned line among lines `k`, `k + 1`, ..., 7.
pub open spec fn first_owner_from(board: Board, k: int) -> Option<Player>
    decreases LINES - k,
{
    if k < 0 || k >= LINES {
        None
    } else if line_owner(board, k) is Some {
        line_owner(board, k)
    } else {
        first_owner_from(board, k + 1)
    }
}

/// The winner that the board shows: the owner of the first owned line, rows
/// before columns before diagonals.
pub open spec fn winner_of(board: Board) -> Option<Player> {
    first_owner_from(board, 0)
}

/// Whether `player` owns at least one line of the board.
pub open spec fn has_line(board: Board, player: Player) -> bool {
    exists|k: int| 0 <= k < LINES && line_owner(board, k) == Some(player)
}

/// Whether every cell holds a mark.
pub open spec fn is_full(board: Board) -> bool {
    forall|row: int, col: int|
        0 <= row < 3 && 0 <= col < 3 ==> (#[trigger] cell(board, row, col)) is Some
}

/// The board without any mark.
pub open spec fn empty_board() -> Board {
    [[None, None, None], [None, None, None], [None, None, None]]
}

/// Whether no cell holds a mark.
pub open spec fn is_empty(board: Board) -> bool {
    forall|row: int, col: int|
        0 <= row < 3 && 0 <= col < 3 ==> (#[trigger] cell(board, row, col)) is None
}

/// Skipping lines without an owner does not change the first owner.
pub proof fn lemma_skip_unowned(board: Board, from: int, to: int)
    requires
        0 <= from <= to <= LINES,
        forall|k: int| from <= k < to ==> line_owner(board, k) is None,
    ensures
        first_owner_from(board, from) == first_owner_from(board, to),
    decreases to - from,
{
    if from < to {
        lemma_skip_unowned(board, from + 1, to);
    }
}

/// The winner is the owner of some line, and there is none exactly when no
/// line has an owner.
pub proof fn lemma_winner_owns_line(board: Board)
    ensures
        winner_of(board) matches Some(p) ==> has_line(board, p),
        winner_of(board) is None <==> forall|k: int|
            0 <= k < LINES ==> line_owner(board, k) is None,
{
    lemma_first_owner(board, 0);
}

proof fn lemma_first_owner(board: Board, from: int)
    requires
        0 <= from <= LINES,
    ensures
        first_owner_from(board, from) matches Some(p) ==> exists|k: int|
            from <= k < LINES && line_owner(board, k) == Some(p),
        first_owner_from(board, from) is None <==> forall|k: int|
            from <= k < LINES ==> line_owner(board, k) is None,
    decreases LINES - from,
{
    if from < LINES {
        lemma_first_owner(board, from + 1);
    }
}

/// The board with `mark` in the cell at `row`, `col`.
pub open spec fn place(board: Board, row: int, col: int, mark: Player) -> Board {
    spec_array_update(board, row, spec_array_update(board[row], col, Some(mark)))
}

/// Placing a mark changes the chosen cell and no other.
pub proof fn lemma_place(board: Board, row: int, col: int, mark: Player)
    requires
        0 <= row < 3,
        0 <= col < 3,
    ensures
        forall|r: int, c: int|
            0 <= r < 3 && 0 <= c < 3 ==> #[trigger] cell(place(board, row, col, mark), r, c) == if r
                == row && c == col {
                Some(mark)
            } else {
                cell(board, r, c)
            },
{
}

/// An empty board shows no winner and is not full.
pub proof fn lemma_empty_board(board: Board)
    requires
        is_empty(board),
    ensures
        winner_of(board) is None,
        !is_full(board),
{
    assert(cell(board, 0, 0) is None);
    assert forall|k: int| 0 <= k < LINES implies line_owner(board, k) is None by {
        assert(cell(board, line_cell(k, 0).0, line_cell(k, 0).1) is None);
    }
    lemma_winner_owns_line(board);
}

/// On a board without a winner, a new mark can complete lines only for the
/// player who placed it.
pub proof fn lemma_place_wins_only_for_mover(board: Board, row: int, col: int, mark: Player)
    requires
        0 <= row < 3,
        0 <= col < 3,
        winner_of(board) is None,
    ensures
        forall|k: int|
            0 <= k < LINES ==> {
                let owner = #[trigger] line_owner(place(board, row, col, mark), k);
                owner is None || owner == Some(mark)
            },
        !has_line(place(board, row, col, mark), mark.spec_other()),
        winner_of(place(board, row, col, mark)) matches Some(winner) ==> winner == mark,
{
    let after = place(board, row, col, mark);
    lemma_place(board, row, col, mark);
    lemma_winner_owns_line(board);
    assert forall|k: int| 0 <= k < LINES implies {
        let owner = #[trigger] line_owner(after, k);
        owner is None || owner == Some(mark)
    } by {
        assert(line_owner(board, k) is None);
    }
    lemma_winner_owns_line(after);
}

} // verus!
