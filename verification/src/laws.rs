use crate::board::{cell, lemma_place};
use crate::contract::Operation;
use crate::registry::Registry;
use crate::state::{Game, GameStatus, JoinError, MoveError};
use linera_base::identifiers::{AccountOwner, ChainId};
use vstd::prelude::*;

verus! {

/// A request for a move: who asks, and for which cell.
pub struct MoveRequest {
    pub player: AccountOwner,
    pub row: usize,
    pub col: usize,
}

/// The game after `make_move` has been called for `request`: the game after
/// the move, or the same game where the move is rejected.
pub open spec fn step(game: Game, request: MoveRequest) -> Game {
    match game.move_outcome(request.player, request.row, request.col) {
        Ok(after) => after,
        Err(_) => game,
    }
}

/// The game after `make_move` has been called for each of `requests` in turn.
pub open spec fn play(game: Game, requests: Seq<MoveRequest>) -> Game
    decreases requests.len(),
{
    if requests.len() == 0 {
        game
    } else {
        step(play(game, requests.drop_last()), requests.last())
    }
}

/// How far a game has come: it waits, it is in progress, it is over.
pub open spec fn progress(status: GameStatus) -> int {
    match status {
        GameStatus::WaitingForPlayer => 0,
        GameStatus::InProgress => 1,
        GameStatus::Won(_) => 2,
        GameStatus::Draw => 2,
    }
}

/// A move marks one empty cell and leaves every mark where it is.
pub proof fn lemma_move_keeps_marks(game: Game, player: AccountOwner, row: usize, col: usize)
    requires
        game.move_outcome(player, row, col) is Ok,
    ensures
        ({
            let after = game.move_outcome(player, row, col)->Ok_0;
            &&& cell(game.board, row as int, col as int) is None
            &&& cell(after.board, row as int, col as int) == Some(game.current_player)
            &&& forall|r: int, c: int|
                0 <= r < 3 && 0 <= c < 3 && !(r == row && c == col) ==> #[trigger] cell(
                    after.board,
                    r,
                    c,
                ) == cell(game.board, r, c)
        }),
{
    lemma_place(game.board, row as int, col as int, game.current_player);
}

/// Whatever moves are asked for, a cell that holds a mark keeps that mark:
/// cells only go from empty to marked.
pub proof fn lemma_marks_stay(game: Game, requests: Seq<MoveRequest>)
    ensures
        forall|r: int, c: int|
            0 <= r < 3 && 0 <= c < 3 && cell(game.board, r, c) is Some ==> #[trigger] cell(
                play(game, requests).board,
                r,
                c,
            ) == cell(game.board, r, c),
    decreases requests.len(),
{
    if requests.len() > 0 {
        let before = play(game, requests.drop_last());
        let request = requests.last();
        lemma_marks_stay(game, requests.drop_last());
        if before.move_outcome(request.player, request.row, request.col) is Ok {
            lemma_move_keeps_marks(before, request.player, request.row, request.col);
        }
    }
}

/// A game that somebody has joined lets nobody else join, whoever asks.
pub proof fn lemma_second_join_rejected(game: Game, first: AccountOwner, second: AccountOwner)
    requires
        game.join_outcome(first) is Ok,
    ensures
        game.join_outcome(first)->Ok_0.join_outcome(second) == Err::<Game, JoinError>(
            JoinError::AlreadyFull,
        ),
{
}

/// After a move that does not end the game, the turn is with the other
/// mark, and only the player of that mark can make the next move.
pub proof fn lemma_turn_alternates(game: Game, player: AccountOwner, row: usize, col: usize)
    requires
        game.move_outcome(player, row, col) is Ok,
        game.move_outcome(player, row, col)->Ok_0.status is InProgress,
    ensures
        ({
            let after = game.move_outcome(player, row, col)->Ok_0;
            let next = game.current_player.spec_other();
            &&& game.mover() == Some(player)
            &&& after.current_player == next
            &&& after.player_x == game.player_x
            &&& after.player_o == game.player_o
            &&& after.mover() == game.identity_of(next)
            &&& forall|other: AccountOwner, r: usize, c: usize| #[trigger]
                after.move_outcome(other, r, c) is Ok ==> Some(other) == game.identity_of(next)
            &&& game.wf() ==> after.mover() is Some && after.mover() != Some(player)
        }),
{
}

/// A move that ends the game leaves the turn with the player who made it.
pub proof fn lemma_last_move_keeps_turn(game: Game, player: AccountOwner, row: usize, col: usize)
    requires
        game.move_outcome(player, row, col) is Ok,
        game.move_outcome(player, row, col)->Ok_0.is_over(),
    ensures
        game.move_outcome(player, row, col)->Ok_0.current_player == game.current_player,
{
}

/// Once a game is won or drawn, every move is rejected, and the game stays
/// as it is whatever moves are asked for.
pub proof fn lemma_no_move_after_end(game: Game, requests: Seq<MoveRequest>)
    requires
        game.is_over(),
    ensures
        forall|player: AccountOwner, row: usize, col: usize| #[trigger]
            game.move_outcome(player, row, col) == Err::<Game, MoveError>(MoveError::NotInProgress),
        play(game, requests) == game,
    decreases requests.len(),
{
    if requests.len() > 0 {
        lemma_no_move_after_end(game, requests.drop_last());
    }
}

/// The status never goes back: a join takes a waiting game into progress, a
/// move leaves a game in progress or ends it, and nothing else changes it.
pub proof fn lemma_status_moves_forward(game: Game, player: AccountOwner, row: usize, col: usize)
    ensures
        game.join_outcome(player) matches Ok(after) ==> after.status is InProgress,
        game.wf() && game.join_outcome(player) is Ok ==> game.status is WaitingForPlayer,
        game.move_outcome(player, row, col) matches Ok(after) ==> game.status is InProgress
            && progress(after.status) >= 1,
{
}

/// No operation removes a game or gives up an identifier: the games that
/// were there stay under their identifiers, and the next identifier does not
/// go back.
pub proof fn lemma_games_never_removed(
    registry: Registry,
    owner: AccountOwner,
    chain_id: ChainId,
    operation: Operation,
)
    requires
        registry.next_game_id < u64::MAX,
        registry.outcome(owner, chain_id, operation) is Ok,
    ensures
        ({
            let after = registry.outcome(owner, chain_id, operation)->Ok_0.0;
            &&& after.next_game_id >= registry.next_game_id
            &&& forall|id: u64| #[trigger]
                registry.games.contains_key(id) ==> after.games.contains_key(id)
        }),
{
}

} // verus!
