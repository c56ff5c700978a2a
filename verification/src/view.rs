use crate::board::{cell, Board, Player};
use crate::identity::{chain_text, chain_to_text, owner_text, owner_to_text};
use crate::state::{Game, GameStatus};
use vstd::prelude::*;

verus! {

/// A game as the queries show it: every field is a number or text.
#[derive(Clone, Debug, PartialEq, Eq)]
pub struct GameView {
    pub id: u64,
    pub player_x: String,
    pub player_o: Option<String>,
    pub board: Vec<Vec<Option<String>>>,
    pub current_player: String,
    pub status: String,
    pub chain_id: String,
}

/// What a `GameView` holds, with the text as sequences of characters.
pub struct GameViewData {
    pub id: u64,
    pub player_x: Seq<char>,
    pub player_o: Option<Seq<char>>,
    pub board: Seq<Seq<Option<Seq<char>>>>,
    pub current_player: Seq<char>,
    pub status: Seq<char>,
    pub chain_id: Seq<char>,
}

/// The text of an optional string.
pub open spec fn text_of(text: Option<String>) -> Option<Seq<char>> {
    match text {
        Some(text) => Some(text@),
        None => None,
    }
}

/// The texts of a row of cells.
pub open spec fn row_texts(row: Vec<Option<String>>) -> Seq<Option<Seq<char>>> {
    Seq::new(row@.len(), |col: int| text_of(row@[col]))
}

impl View for GameView {
    type V = GameViewData;

    open spec fn view(&self) -> GameViewData {
        GameViewData {
            id: self.id,
            player_x: self.player_x@,
            player_o: text_of(self.player_o),
            board: Seq::new(self.board@.len(), |row: int| row_texts(self.board@[row])),
            current_player: self.current_player@,
            status: self.status@,
            chain_id: self.chain_id@,
        }
    }
}

/// The letter that stands for a mark: `X` or `O`.
pub open spec fn mark_text(mark: Player) -> Seq<char> {
    match mark {
        Player::X => "X"@,
        Player::O => "O"@,
    }
}

/// The words that describe a status.
pub open spec fn status_text(status: GameStatus) -> Seq<char> {
    match status {
        GameStatus::WaitingForPlayer => "Waiting for player"@,
        GameStatus::InProgress => "In progress"@,
        GameStatus::Won(Player::X) => "Won by X"@,
        GameStatus::Won(Player::O) => "Won by O"@,
        GameStatus::Draw => "Draw"@,
    }
}

/// The letters on a board: three rows of three cells.
pub open spec fn board_texts(board: Board) -> Seq<Seq<Option<Seq<char>>>> {
    Seq::new(
        3,
        |row: int|
            Seq::new(
                3,
                |col: int|
                    match cell(board, row, col) {
                        Some(mark) => Some(mark_text(mark)),
                        None => None,
                    },
            ),
    )
}

/// What the queries show of the game `game` with the identifier `id`.
pub open spec fn project(id: u64, game: Game) -> GameViewData {
    GameViewData {
        id,
        player_x: owner_text(game.player_x),
        player_o: match game.player_o {
            Some(player_o) => Some(owner_text(player_o)),
            None => None,
        },
        board: board_texts(game.board),
        current_player: mark_text(game.current_player),
        status: status_text(game.status),
        chain_id: chain_text(game.chain_id),
    }
}

/// Writes the letter of a mark.
pub fn mark_to_text(mark: Player) -> (text: String)
    ensures
        text@ == mark_text(mark),
{
    match mark {
        Player::X => "X".to_string(),
        Player::O => "O".to_string(),
    }
}

/// Writes the words that describe a status.
pub fn status_to_text(status: GameStatus) -> (text: String)
    ensures
        text@ == status_text(status),
{
    match status {
        GameStatus::WaitingForPlayer => "Waiting for player".to_string(),
        GameStatus::InProgress => "In progress".to_string(),
        GameStatus::Won(Player::X) => "Won by X".to_string(),
        GameStatus::Won(Player::O) => "Won by O".to_string(),
        GameStatus::Draw => "Draw".to_string(),
    }
}

impl GameView {
    /// Shows the game `game` that has the identifier `id`.
    pub fn from(entry: (u64, &Game)) -> (shown: GameView)
        ensures
            shown@ == project(entry.0, *entry.1),
    {
        let (id, game) = entry;
        let mut board: Vec<Vec<Option<String>>> = Vec::new();
        for row in 0..3usize
            invariant
                board@.len() == row,
                forall|r: int|
                    0 <= r < row ==> row_texts(#[trigger] board@[r]) == board_texts(
                        game.board,
                    )[r],
        {
            let mut cells: Vec<Option<String>> = Vec::new();
            for col in 0..3usize
                invariant
                    row < 3,
                    cells@.len() == col,
                    forall|c: int|
                        0 <= c < col ==> text_of(#[trigger] cells@[c]) == board_texts(
                            game.board,
                        )[row as int][c],
            {
                let shown = match game.board[row][col] {
                    Some(mark) => Some(mark_to_text(mark)),
                    None => None,
                };
                cells.push(shown);
            }
            assert(row_texts(cells) =~= board_texts(game.board)[row as int]);
            board.push(cells);
        }
        let player_o = match game.player_o {
            Some(player_o) => Some(owner_to_text(&player_o)),
            None => None,
        };
        let shown = GameView {
            id,
            player_x: owner_to_text(&game.player_x),
            player_o,
            board,
            current_player: mark_to_text(game.current_player),
            status: status_to_text(game.status),
            chain_id: chain_to_text(&game.chain_id),
        };
        assert(shown@.board =~= board_texts(game.board));
        shown
    }
}

} // verus!
