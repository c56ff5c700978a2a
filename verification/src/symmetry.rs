use crate::board::{
    cell, has_line, lemma_winner_owns_line, line_owner, winner_of, Board, Player, LINES,
};
use vstd::prelude::*;

verus! {

/// The board turned by a quarter to the right: the left column becomes the
/// top row.
pub open spec fn rotate(board: Board) -> Board {
    [
        [cell(board, 2, 0), cell(board, 1, 0), cell(board, 0, 0)],
        [cell(board, 2, 1), cell(board, 1, 1), cell(board, 0, 1)],
        [cell(board, 2, 2), cell(board, 1, 2), cell(board, 0, 2)],
    ]
}

/// The board as a mirror shows it: left and right change places.
pub open spec fn mirror(board: Board) -> Board {
    [
        [cell(board, 0, 2), cell(board, 0, 1), cell(board, 0, 0)],
        [cell(board, 1, 2), cell(board, 1, 1), cell(board, 1, 0)],
        [cell(board, 2, 2), cell(board, 2, 1), cell(board, 2, 0)],
    ]
}

/// The line of the turned board that holds the cells of line `k`.
pub open spec fn rotated_line(k: int) -> int {
    if k < 3 {
        5 - k
    } else if k < 6 {
        k - 3
    } else if k == 6 {
        7
    } else {
        6
    }
}

/// The line whose cells the line `j` of the turned board holds.
pub open spec fn line_before_rotation(j: int) -> int {
    if j < 3 {
        j + 3
    } else if j < 6 {
        5 - j
    } else if j == 6 {
        7
    } else {
        6
    }
}

/// The line of the mirrored board that holds the cells of line `k`. The line
/// `k` in turn holds the cells of that line of the mirrored board.
pub open spec fn mirrored_line(k: int) -> int {
    if k < 3 {
        k
    } else if k < 6 {
        8 - k
    } else if k == 6 {
        7
    } else {
        6
    }
}

/// Turning the board moves every cell a quarter to the right.
pub proof fn lemma_rotate_cells(board: Board)
    ensures
        forall|row: int, col: int|
            0 <= row < 3 && 0 <= col < 3 ==> #[trigger] cell(rotate(board), row, col) == cell(
                board,
                2 - col,
                row,
            ),
{
}

/// Mirroring the board exchanges the cells of each row left to right.
pub proof fn lemma_mirror_cells(board: Board)
    ensures
        forall|row: int, col: int|
            0 <= row < 3 && 0 <= col < 3 ==> #[trigger] cell(mirror(board), row, col) == cell(
                board,
                row,
                2 - col,
            ),
{
}

/// Turning the board carries each line, with its owner, to a line of the
/// turned board, and every line of the turned board comes from one.
pub proof fn lemma_rotate_lines(board: Board)
    ensures
        forall|k: int|
            0 <= k < LINES ==> #[trigger] line_owner(rotate(board), rotated_line(k)) == line_owner(
                board,
                k,
            ),
        forall|k: int| 0 <= k < LINES ==> 0 <= #[trigger] rotated_line(k) < LINES,
        forall|j: int|
            0 <= j < LINES ==> 0 <= #[trigger] line_before_rotation(j) < LINES && rotated_line(
                line_before_rotation(j),
            ) == j,
{
    lemma_rotate_cells(board);
}

/// Mirroring the board carries each line, with its owner, to a line of the
/// mirrored board, and every line of the mirrored board comes from one.
pub proof fn lemma_mirror_lines(board: Board)
    ensures
        forall|k: int|
            0 <= k < LINES ==> #[trigger] line_owner(mirror(board), mirrored_line(k)) == line_owner(
                board,
                k,
            ),
        forall|k: int|
            0 <= k < LINES ==> 0 <= #[trigger] mirrored_line(k) < LINES && mirrored_line(
                mirrored_line(k),
            ) == k,
{
    lemma_mirror_cells(board);
}

/// Whether two boards have their lines owned by the same players: whoever
/// owns a line of one owns a line of the other.
pub open spec fn same_line_owners(a: Board, b: Board) -> bool {
    forall|player: Player| has_line(a, player) <==> has_line(b, player)
}

/// Boards with the same line owners show a winner together, and the same
/// winner unless both players own a line.
pub proof fn lemma_same_owners_same_winner(a: Board, b: Board)
    requires
        same_line_owners(a, b),
    ensures
        winner_of(a) is Some <==> winner_of(b) is Some,
        !(has_line(a, Player::X) && has_line(a, Player::O)) ==> winner_of(a) == winner_of(b),
{
    lemma_winner_owns_line(a);
    lemma_winner_owns_line(b);
    assert(has_line(a, Player::X) <==> has_line(b, Player::X));
    assert(has_line(a, Player::O) <==> has_line(b, Player::O));
    if winner_of(a) is None && winner_of(b) is Some {
        let p = winner_of(b)->0;
        assert(has_line(a, p));
        let k = choose|k: int| 0 <= k < LINES && line_owner(a, k) == Some(p);
        assert(line_owner(a, k) is None);
    }
    if winner_of(b) is None && winner_of(a) is Some {
        let p = winner_of(a)->0;
        assert(has_line(b, p));
        let k = choose|k: int| 0 <= k < LINES && line_owner(b, k) == Some(p);
        assert(line_owner(b, k) is None);
    }
}

/// Win detection does not depend on how the board is turned: the turned
/// board has the same line owners, shows a winner exactly when the board
/// does, and shows the same winner unless both players own a line.
pub proof fn lemma_winner_after_rotation(board: Board)
    ensures
        same_line_owners(board, rotate(board)),
        winner_of(rotate(board)) is Some <==> winner_of(board) is Some,
        !(has_line(board, Player::X) && has_line(board, Player::O)) ==> winner_of(rotate(board))
            == winner_of(board),
{
    lemma_rotate_lines(board);
    assert forall|player: Player| has_line(board, player) <==> has_line(
        rotate(board),
        player,
    ) by {
        if has_line(board, player) {
            let k = choose|k: int| 0 <= k < LINES && line_owner(board, k) == Some(player);
            assert(line_owner(rotate(board), rotated_line(k)) == Some(player));
        }
        if has_line(rotate(board), player) {
            let j = choose|j: int| 0 <= j < LINES && line_owner(rotate(board), j) == Some(player);
            let k = line_before_rotation(j);
            assert(line_owner(rotate(board), rotated_line(k)) == line_owner(board, k));
        }
    }
    lemma_same_owners_same_winner(board, rotate(board));
}

/// Win detection does not depend on a reflection of the board: the mirrored
/// board has the same line owners, shows a winner exactly when the board
/// does, and shows the same winner unless both players own a line.
pub proof fn lemma_winner_after_reflection(board: Board)
    ensures
        same_line_owners(board, mirror(board)),
        winner_of(mirror(board)) is Some <==> winner_of(board) is Some,
        !(has_line(board, Player::X) && has_line(board, Player::O)) ==> winner_of(mirror(board))
            == winner_of(board),
{
    lemma_mirror_lines(board);
    assert forall|player: Player| has_line(board, player) <==> has_line(
        mirror(board),
        player,
    ) by {
        if has_line(board, player) {
            let k = choose|k: int| 0 <= k < LINES && line_owner(board, k) == Some(player);
            assert(line_owner(mirror(board), mirrored_line(k)) == Some(player));
        }
        if has_line(mirror(board), player) {
            let j = choose|j: int| 0 <= j < LINES && line_owner(mirror(board), j) == Some(player);
            let k = mirrored_line(j);
            assert(line_owner(mirror(board), mirrored_line(k)) == line_owner(board, k));
        }
    }
    lemma_same_owners_same_winner(board, mirror(board));
}

} // verus!
