use crate::board::{
    cell, empty_board, has_line, is_empty, is_full, lemma_empty_board,
    lemma_place_wins_only_for_mover, lemma_skip_unowned, line_owner, place, winner_of, Board,
    Player,
};
use crate::identity::same_owner;
use linera_base::identifiers::{AccountOwner, ChainId};
use vstd::prelude::*;

verus! {

/// Where a game stands.
#[derive(Clone, Copy, Debug, PartialEq, Eq, Structural)]
pub enum GameStatus {
    WaitingForPlayer,
    InProgress,
    Won(Player),
    Draw,
}

/// Why a player could not join a game.
#[derive(Clone, Copy, Debug, PartialEq, Eq, Structural)]
pub enum JoinError {
    /// The game already has its second player.
    AlreadyFull,
    /// The creator of the game tried to join it.
    SelfPlay,
}

/// Why a move was rejected.
#[derive(Clone, Copy, Debug, PartialEq, Eq, Structural)]
pub enum MoveError {
    /// The game waits for its second player or is over.
    NotInProgress,
    /// It is the turn of `O`, and nobody plays `O`.
    OpponentNotJoined,
    /// The caller is not the player whose turn it is.
    NotYourTurn,
    /// The row or the column is not 0, 1 or 2.
    OutOfBounds,
    /// The cell already holds a mark.
    CellOccupied,
}

impl JoinError {
    /// The words that tell a player why joining failed.
    pub open spec fn spec_message(self) -> Seq<char> {
        match self {
            JoinError::AlreadyFull => "Game already has two players"@,
            JoinError::SelfPlay => "Cannot play against yourself"@,
        }
    }

    /// Writes the words that tell a player why joining failed.
    pub fn message(&self) -> (text: String)
        ensures
            text@ == self.spec_message(),
    {
        match self {
            JoinError::AlreadyFull => "Game already has two players".to_string(),
            JoinError::SelfPlay => "Cannot play against yourself".to_string(),
        }
    }
}

impl MoveError {
    /// The words that tell a player why the move was rejected.
    pub open spec fn spec_message(self) -> Seq<char> {
        match self {
            MoveError::NotInProgress => "Game is not in progress"@,
            MoveError::OpponentNotJoined => "Player O not joined yet"@,
            MoveError::NotYourTurn => "Not your turn"@,
            MoveError::OutOfBounds => "Invalid position"@,
            MoveError::CellOccupied => "Position already occupied"@,
        }
    }

    /// Writes the words that tell a player why the move was rejected.
    pub fn message(&self) -> (text: String)
        ensures
            text@ == self.spec_message(),
    {
        match self {
            MoveError::NotInProgress => "Game is not in progress".to_string(),
            MoveError::OpponentNotJoined => "Player O not joined yet".to_string(),
            MoveError::NotYourTurn => "Not your turn".to_string(),
            MoveError::OutOfBounds => "Invalid position".to_string(),
            MoveError::CellOccupied => "Position already occupied".to_string(),
        }
    }
}

/// One game of tic-tac-toe.
#[derive(Clone, Copy, Debug, PartialEq, Eq)]
pub struct Game {
    /// Who plays `X`: the creator of the game.
    pub player_x: AccountOwner,
    /// Who plays `O`; `None` until somebody has joined.
    pub player_o: Option<AccountOwner>,
    /// The marks on the grid.
    pub board: Board,
    /// Whose turn it is.
    pub current_player: Player,
    /// Where the game stands.
    pub status: GameStatus,
    /// The chain on which the game was created.
    pub chain_id: ChainId,
}

impl Game {
    /// Who plays `mark`, if anybody does.
    pub open spec fn identity_of(self, mark: Player) -> Option<AccountOwner> {
        match mark {
            Player::X => Some(self.player_x),
            Player::O => self.player_o,
        }
    }

    /// Who may make the next move, as far as the turn goes.
    pub open spec fn mover(self) -> Option<AccountOwner> {
        self.identity_of(self.current_player)
    }

    /// Whether the game is over.
    pub open spec fn is_over(self) -> bool {
        self.status is Won || self.status is Draw
    }

    /// What holds of every game that was created by `new` and changed only by
    /// `join` and `make_move`: the players differ, the game waits exactly
    /// while nobody plays `O`, and the status agrees with the board.
    pub open spec fn wf(self) -> bool {
        &&& self.player_o != Some(self.player_x)
        &&& self.status is WaitingForPlayer <==> self.player_o is None
        &&& match self.status {
            GameStatus::WaitingForPlayer => is_empty(self.board) && self.current_player
                == Player::X,
            GameStatus::InProgress => winner_of(self.board) is None && !is_full(self.board),
            GameStatus::Won(winner) => {
                &&& winner == self.current_player
                &&& winner_of(self.board) == Some(winner)
                &&& !has_line(self.board, winner.spec_other())
            },
            GameStatus::Draw => winner_of(self.board) is None && is_full(self.board),
        }
    }

    /// The game right after `player_x` created it on `chain_id`: it waits for
    /// its second player, the board is empty and `X` moves first.
    pub open spec fn spec_new(player_x: AccountOwner, chain_id: ChainId) -> Game {
        Game {
            player_x,
            player_o: None,
            board: empty_board(),
            current_player: Player::X,
            status: GameStatus::WaitingForPlayer,
            chain_id,
        }
    }

    /// What `join` does with `player_o`: the game with its second player, or
    /// the reason for which nobody joins.
    pub open spec fn join_outcome(self, player_o: AccountOwner) -> Result<Game, JoinError> {
        if self.player_o is Some {
            Err(JoinError::AlreadyFull)
        } else if self.player_x == player_o {
            Err(JoinError::SelfPlay)
        } else {
            Ok(Game { player_o: Some(player_o), status: GameStatus::InProgress, ..self })
        }
    }

    /// The game after the player whose turn it is has marked the cell at
    /// `row`, `col`: won by the board's winner, else drawn on a full board,
    /// else passed on to the other player.
    pub open spec fn after_move(self, row: int, col: int) -> Game {
        let board = place(self.board, row, col, self.current_player);
        match winner_of(board) {
            Some(winner) => Game { board, status: GameStatus::Won(winner), ..self },
            None => if is_full(board) {
                Game { board, status: GameStatus::Draw, ..self }
            } else {
                Game { board, current_player: self.current_player.spec_other(), ..self }
            },
        }
    }

    /// What `make_move` does when `player` asks for the cell at `row`, `col`:
    /// the game after the move, or the first reason, in this order, for which
    /// the move is rejected.
    pub open spec fn move_outcome(self, player: AccountOwner, row: usize, col: usize) -> Result<
        Game,
        MoveError,
    > {
        if self.status != GameStatus::InProgress {
            Err(MoveError::NotInProgress)
        } else if self.mover() is None {
            Err(MoveError::OpponentNotJoined)
        } else if self.mover() != Some(player) {
            Err(MoveError::NotYourTurn)
        } else if row >= 3 || col >= 3 {
            Err(MoveError::OutOfBounds)
        } else if cell(self.board, row as int, col as int) is Some {
            Err(MoveError::CellOccupied)
        } else {
            Ok(self.after_move(row as int, col as int))
        }
    }

    /// Creates a game that `player_x` opens on `chain_id` and that waits for
    /// its second player.
    pub fn new(player_x: AccountOwner, chain_id: ChainId) -> (game: Game)
        ensures
            game == Game::spec_new(player_x, chain_id),
            game.wf(),
    {
        let board: Board = [[None, None, None], [None, None, None], [None, None, None]];
        Game {
            player_x,
            player_o: None,
            board,
            current_player: Player::X,
            status: GameStatus::WaitingForPlayer,
            chain_id,
        }
    }

    /// Lets `player_o` join as the player of `O` and starts the game.
    pub fn join(&mut self, player_o: AccountOwner) -> (joined: Result<(), JoinError>)
        ensures
            match old(self).join_outcome(player_o) {
                Ok(game) => joined is Ok && *final(self) == game,
                Err(error) => joined == Err::<(), JoinError>(error) && *final(self) == *old(self),
            },
            old(self).wf() ==> final(self).wf(),
    {
        if self.player_o.is_some() {
            return Err(JoinError::AlreadyFull);
        }
        if same_owner(&self.player_x, &player_o) {
            return Err(JoinError::SelfPlay);
        }
        proof {
            if self.wf() {
                lemma_empty_board(self.board);
            }
        }
        self.player_o = Some(player_o);
        self.status = GameStatus::InProgress;
        Ok(())
    }

    /// Marks the cell at `row`, `col` for `player` and settles the game: it
    /// is won, drawn, or passes to the other player.
    pub fn make_move(&mut self, player: &AccountOwner, row: usize, col: usize) -> (moved: Result<
        (),
        MoveError,
    >)
        ensures
            match old(self).move_outcome(*player, row, col) {
                Ok(game) => moved is Ok && *final(self) == game,
                Err(error) => moved == Err::<(), MoveError>(error) && *final(self) == *old(self),
            },
            old(self).wf() ==> final(self).wf(),
            forall|r: int, c: int|
                0 <= r < 3 && 0 <= c < 3 && cell(old(self).board, r, c) is Some ==> #[trigger] cell(
                    final(self).board,
                    r,
                    c,
                ) == cell(old(self).board, r, c),
    {
        if self.status != GameStatus::InProgress {
            return Err(MoveError::NotInProgress);
        }
        let mover = match self.current_player {
            Player::X => self.player_x,
            Player::O => match self.player_o {
                Some(player_o) => player_o,
                None => {
                    return Err(MoveError::OpponentNotJoined);
                },
            },
        };
        if !same_owner(player, &mover) {
            return Err(MoveError::NotYourTurn);
        }
        if row >= 3 || col >= 3 {
            return Err(MoveError::OutOfBounds);
        }
        if self.board[row][col].is_some() {
            return Err(MoveError::CellOccupied);
        }
        proof {
            if self.wf() {
                lemma_place_wins_only_for_mover(
                    self.board,
                    row as int,
                    col as int,
                    self.current_player,
                );
            }
        }
        self.board[row][col] = Some(self.current_player);
        if let Some(winner) = self.check_winner() {
            self.status = GameStatus::Won(winner);
        } else if self.is_board_full() {
            self.status = GameStatus::Draw;
        } else {
            self.current_player = self.current_player.other();
        }
        Ok(())
    }

    /// Finds the winner that the board shows.
    pub fn check_winner(&self) -> (winner: Option<Player>)
        ensures
            winner == winner_of(self.board),
    {
        for row in 0..3usize
            invariant
                forall|k: int| 0 <= k < row ==> line_owner(self.board, k) is None,
        {
            if let Some(player) = self.board[row][0] {
                if self.board[row][1] == Some(player) && self.board[row][2] == Some(player) {
                    proof {
                        lemma_skip_unowned(self.board, 0, row as int);
                    }
                    return Some(player);
                }
            }
        }
        for col in 0..3usize
            invariant
                forall|k: int| 0 <= k < 3 + col ==> line_owner(self.board, k) is None,
        {
            if let Some(player) = self.board[0][col] {
                if self.board[1][col] == Some(player) && self.board[2][col] == Some(player) {
                    proof {
                        lemma_skip_unowned(self.board, 0, 3 + col as int);
                    }
                    return Some(player);
                }
            }
        }
        if let Some(player) = self.board[0][0] {
            if self.board[1][1] == Some(player) && self.board[2][2] == Some(player) {
                proof {
                    lemma_skip_unowned(self.board, 0, 6);
                }
                return Some(player);
            }
        }
        if let Some(player) = self.board[0][2] {
            if self.board[1][1] == Some(player) && self.board[2][0] == Some(player) {
                proof {
                    lemma_skip_unowned(self.board, 0, 7);
                }
                return Some(player);
            }
        }
        proof {
            lemma_skip_unowned(self.board, 0, 8);
        }
        None
    }

    /// Tells whether every cell of the board holds a mark.
    pub fn is_board_full(&self) -> (full: bool)
        ensures
            full == is_full(self.board),
    {
        for row in 0..3usize
            invariant
                forall|r: int, c: int|
                    0 <= r < row && 0 <= c < 3 ==> (#[trigger] cell(self.board, r, c)) is Some,
        {
            for col in 0..3usize
                invariant
                    row < 3,
                    forall|r: int, c: int|
                        0 <= r < row && 0 <= c < 3 ==> (#[trigger] cell(self.board, r, c)) is Some,
                    forall|c: int|
                        0 <= c < col ==> (#[trigger] cell(self.board, row as int, c)) is Some,
            {
                if self.board[row][col].is_none() {
                    assert(cell(self.board, row as int, col as int) is None);
                    return false;
                }
            }
        }
        true
    }
}

} // verus!
