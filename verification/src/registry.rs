use crate::board::{empty_board, is_empty};
use crate::state::{Game, JoinError, MoveError};
use linera_base::identifiers::{AccountOwner, ChainId};
use std::collections::BTreeMap;
use vstd::prelude::*;

verus! {

/// All games of one chain, by their identifiers, and the identifier that the
/// next game gets.
#[derive(Clone, Debug)]
pub struct TicTacToeState {
    /// The games by identifier. No game is ever removed.
    pub games: BTreeMap<u64, Game>,
    /// The identifier of the next game. It grows by one with each game.
    pub next_game_id: u64,
}

/// What a `TicTacToeState` holds, with the games as a mathematical map.
pub struct Registry {
    pub games: Map<u64, Game>,
    pub next_game_id: u64,
}

/// Why the game of an operation could not be changed.
#[derive(Clone, Copy, Debug, PartialEq, Eq, Structural)]
pub enum OperationError {
    /// No game has the identifier that the operation names.
    GameNotFound,
    /// The game refused the player who wanted to join.
    Join(JoinError),
    /// The game refused the move.
    Move(MoveError),
}

impl Registry {
    /// What holds of every registry that started empty and changed only by
    /// the operations of `TicTacToeState`: the identifiers in use are exactly
    /// those below the next one, and every game is well formed.
    pub open spec fn wf(self) -> bool {
        &&& forall|id: u64| #[trigger] self.games.contains_key(id) <==> id < self.next_game_id
        &&& forall|id: u64| #[trigger] self.games.contains_key(id) ==> self.games[id].wf()
    }

    /// The registry after `creator` has created a game on `chain_id`.
    pub open spec fn with_new_game(self, creator: AccountOwner, chain_id: ChainId) -> Registry {
        Registry {
            games: self.games.insert(self.next_game_id, Game::spec_new(creator, chain_id)),
            next_game_id: (self.next_game_id + 1) as u64,
        }
    }

    /// What `join_game` does: the registry in which `player` has joined the
    /// game `game_id`, or the reason for which nothing changes.
    pub open spec fn join_outcome(self, game_id: u64, player: AccountOwner) -> Result<
        Registry,
        OperationError,
    > {
        if !self.games.contains_key(game_id) {
            Err(OperationError::GameNotFound)
        } else {
            match self.games[game_id].join_outcome(player) {
                Ok(game) => Ok(Registry { games: self.games.insert(game_id, game), ..self }),
                Err(error) => Err(OperationError::Join(error)),
            }
        }
    }

    /// What `make_move` does: the registry in which `player` has marked the
    /// cell at `row`, `col` of the game `game_id`, or the reason for which
    /// nothing changes.
    pub open spec fn move_outcome(
        self,
        game_id: u64,
        player: AccountOwner,
        row: usize,
        col: usize,
    ) -> Result<Registry, OperationError> {
        if !self.games.contains_key(game_id) {
            Err(OperationError::GameNotFound)
        } else {
            match self.games[game_id].move_outcome(player, row, col) {
                Ok(game) => Ok(Registry { games: self.games.insert(game_id, game), ..self }),
                Err(error) => Err(OperationError::Move(error)),
            }
        }
    }
}

impl View for TicTacToeState {
    type V = Registry;

    open spec fn view(&self) -> Registry {
        Registry { games: self.games@, next_game_id: self.next_game_id }
    }
}

impl Default for TicTacToeState {
    /// The registry without games, whose first game gets the identifier 0.
    fn default() -> (state: TicTacToeState)
        ensures
            state@ == (Registry { games: Map::empty(), next_game_id: 0 }),
            state@.wf(),
    {
        TicTacToeState { games: BTreeMap::new(), next_game_id: 0 }
    }
}

impl TicTacToeState {
    /// Creates a game for `creator` on `chain_id` under the next identifier
    /// and returns that identifier.
    pub fn create_game(&mut self, creator: AccountOwner, chain_id: ChainId) -> (game_id: u64)
        requires
            old(self).next_game_id < u64::MAX,
        ensures
            game_id == old(self).next_game_id,
            final(self)@ == old(self)@.with_new_game(creator, chain_id),
            old(self)@.wf() ==> final(self)@.wf(),
    {
        let game_id = self.next_game_id;
        let game = Game::new(creator, chain_id);
        self.games.insert(game_id, game);
        self.next_game_id = game_id + 1;
        proof {
            if old(self)@.wf() {
                lemma_new_identifier_is_fresh(old(self)@, creator, chain_id);
            }
        }
        game_id
    }

    /// Looks up the game with the identifier `game_id`.
    pub fn get(&self, game_id: u64) -> (found: Option<&Game>)
        ensures
            match found {
                Some(game) => self@.games.contains_key(game_id) && *game == self@.games[game_id],
                None => !self@.games.contains_key(game_id),
            },
    {
        self.games.get(&game_id)
    }

    /// Lets `player` join the game `game_id` as the player of `O`.
    pub fn join_game(&mut self, game_id: u64, player: AccountOwner) -> (joined: Result<
        (),
        OperationError,
    >)
        ensures
            match old(self)@.join_outcome(game_id, player) {
                Ok(after) => joined is Ok && final(self)@ == after,
                Err(error) => {
                    &&& joined == Err::<(), OperationError>(error)
                    &&& final(self)@ == old(self)@
                },
            },
            old(self)@.wf() ==> final(self)@.wf(),
    {
        let mut game = match self.games.get(&game_id) {
            Some(game) => *game,
            None => {
                return Err(OperationError::GameNotFound);
            },
        };
        match game.join(player) {
            Ok(()) => {
                self.games.insert(game_id, game);
                Ok(())
            },
            Err(error) => Err(OperationError::Join(error)),
        }
    }

    /// Marks the cell at `row`, `col` of the game `game_id` for `player`.
    pub fn make_move(
        &mut self,
        game_id: u64,
        player: AccountOwner,
        row: usize,
        col: usize,
    ) -> (moved: Result<(), OperationError>)
        ensures
            match old(self)@.move_outcome(game_id, player, row, col) {
                Ok(after) => moved is Ok && final(self)@ == after,
                Err(error) => {
                    &&& moved == Err::<(), OperationError>(error)
                    &&& final(self)@ == old(self)@
                },
            },
            old(self)@.wf() ==> final(self)@.wf(),
    {
        let mut game = match self.games.get(&game_id) {
            Some(game) => *game,
            None => {
                return Err(OperationError::GameNotFound);
            },
        };
        match game.make_move(&player, row, col) {
            Ok(()) => {
                self.games.insert(game_id, game);
                Ok(())
            },
            Err(error) => Err(OperationError::Move(error)),
        }
    }
}

/// A new game gets an identifier that no game has had, one above the last,
/// and every other game stays as it is.
pub proof fn lemma_new_identifier_is_fresh(
    registry: Registry,
    creator: AccountOwner,
    chain_id: ChainId,
)
    requires
        registry.wf(),
        registry.next_game_id < u64::MAX,
    ensures
        ({
            let after = registry.with_new_game(creator, chain_id);
            &&& !registry.games.contains_key(registry.next_game_id)
            &&& after.next_game_id == registry.next_game_id + 1
            &&& after.games[registry.next_game_id] == Game::spec_new(creator, chain_id)
            &&& forall|id: u64| #[trigger]
                registry.games.contains_key(id) ==> after.games.contains_key(id) && after.games[id]
                    == registry.games[id]
            &&& after.wf()
        }),
{
    let after = registry.with_new_game(creator, chain_id);
    lemma_new_game_wf(creator, chain_id);
    assert forall|id: u64| #[trigger] after.games.contains_key(id) implies after.games[id].wf() by {
        if id != registry.next_game_id {
            assert(registry.games.contains_key(id));
        }
    }
    assert forall|id: u64| #[trigger] after.games.contains_key(id) <==> id
        < after.next_game_id by {
        if id != registry.next_game_id {
            assert(registry.games.contains_key(id) <==> id < registry.next_game_id);
        }
    }
}

/// A game that was just created is well formed.
pub proof fn lemma_new_game_wf(creator: AccountOwner, chain_id: ChainId)
    ensures
        Game::spec_new(creator, chain_id).wf(),
{
    assert(is_empty(empty_board()));
}

} // verus!
