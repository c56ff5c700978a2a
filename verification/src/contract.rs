use crate::registry::{OperationError, Registry, TicTacToeState};
use linera_base::identifiers::{AccountOwner, ChainId};
use vstd::prelude::*;

verus! {

/// What a player asks of the application.
#[derive(Clone, Copy, Debug, PartialEq, Eq, Structural)]
pub enum Operation {
    /// Create a game and wait for a second player.
    CreateGame,
    /// Join the game `game_id` as its second player.
    JoinGame { game_id: u64 },
    /// Mark the cell at `row`, `col` of the game `game_id`.
    MakeMove { game_id: u64, row: usize, col: usize },
}

/// What the application tells the other chains after an operation that
/// changed a game.
#[derive(Clone, Copy, Debug, PartialEq, Eq)]
pub enum Message {
    /// `creator` has created the game `game_id`.
    GameCreated { game_id: u64, creator: AccountOwner },
    /// `player` has joined the game `game_id`.
    PlayerJoined { game_id: u64, player: AccountOwner },
    /// `player` has marked the cell at `row`, `col` of the game `game_id`.
    MoveMade { game_id: u64, player: AccountOwner, row: usize, col: usize },
}

impl Registry {
    /// What `execute_operation` does when `owner` asks for `operation` on the
    /// chain `chain_id`: the registry after the operation and the message to
    /// send, or the reason for which nothing changes and nothing is sent.
    pub open spec fn outcome(
        self,
        owner: AccountOwner,
        chain_id: ChainId,
        operation: Operation,
    ) -> Result<(Registry, Message), OperationError> {
        match operation {
            Operation::CreateGame => Ok(
                (
                    self.with_new_game(owner, chain_id),
                    Message::GameCreated { game_id: self.next_game_id, creator: owner },
                ),
            ),
            Operation::JoinGame { game_id } => match self.join_outcome(game_id, owner) {
                Ok(after) => Ok((after, Message::PlayerJoined { game_id, player: owner })),
                Err(error) => Err(error),
            },
            Operation::MakeMove { game_id, row, col } => match self.move_outcome(
                game_id,
                owner,
                row,
                col,
            ) {
                Ok(after) => Ok((after, Message::MoveMade { game_id, player: owner, row, col })),
                Err(error) => Err(error),
            },
        }
    }
}

impl TicTacToeState {
    /// Carries out `operation` for the authenticated caller `owner` on the
    /// chain `chain_id`. On success the result is the message that the caller
    /// of this function has to send to the subscribers of this chain; on
    /// failure no game has changed and there is nothing to send.
    pub fn execute_operation(
        &mut self,
        owner: AccountOwner,
        chain_id: ChainId,
        operation: Operation,
    ) -> (sent: Result<Message, OperationError>)
        requires
            operation is CreateGame ==> old(self).next_game_id < u64::MAX,
        ensures
            match old(self)@.outcome(owner, chain_id, operation) {
                Ok((after, message)) => {
                    &&& sent == Ok::<Message, OperationError>(message)
                    &&& final(self)@ == after
                },
                Err(error) => {
                    &&& sent == Err::<Message, OperationError>(error)
                    &&& final(self)@ == old(self)@
                },
            },
            old(self)@.wf() ==> final(self)@.wf(),
    {
        match operation {
            Operation::CreateGame => {
                let game_id = self.create_game(owner, chain_id);
                Ok(Message::GameCreated { game_id, creator: owner })
            },
            Operation::JoinGame { game_id } => match self.join_game(game_id, owner) {
                Ok(()) => Ok(Message::PlayerJoined { game_id, player: owner }),
                Err(error) => Err(error),
            },
            Operation::MakeMove { game_id, row, col } => match self.make_move(
                game_id,
                owner,
                row,
                col,
            ) {
                Ok(()) => Ok(Message::MoveMade { game_id, player: owner, row, col }),
                Err(error) => Err(error),
            },
        }
    }

    /// Takes note of a message from another chain. Messages tell what has
    /// happened elsewhere; no game of this chain changes.
    pub fn execute_message(&mut self, message: Message)
        ensures
            final(self)@ == old(self)@,
    {
    }
}

} // verus!
