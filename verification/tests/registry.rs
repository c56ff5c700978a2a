use linera_base::crypto::CryptoHash;
use linera_base::identifiers::{AccountOwner, ChainId};
use tic_tac_toe::{
    Game, GameStatus, JoinError, Message, MoveError, Operation, OperationError, Player,
    TicTacToeState,
};

fn ann() -> AccountOwner {
    AccountOwner::Address20([0xaa; 20])
}

fn ben() -> AccountOwner {
    AccountOwner::Address20([0xbb; 20])
}

fn here() -> ChainId {
    ChainId(CryptoHash::from([3u8; 32]))
}

fn keys(state: &TicTacToeState) -> Vec<u64> {
    state.games.keys().copied().collect()
}

fn one_started_game() -> TicTacToeState {
    let mut state = TicTacToeState::default();
    assert_eq!(state.create_game(ann(), here()), 0);
    assert_eq!(state.join_game(0, ben()), Ok(()));
    state
}

#[test]
fn default_state_has_no_games() {
    let state = TicTacToeState::default();
    assert!(state.games.is_empty());
    assert_eq!(state.next_game_id, 0);
    assert!(state.get(0).is_none());
}

#[test]
fn identifiers_count_up_from_zero() {
    let mut state = TicTacToeState::default();
    assert_eq!(state.create_game(ann(), here()), 0);
    assert_eq!(state.create_game(ben(), here()), 1);
    assert_eq!(state.create_game(ann(), here()), 2);
    assert_eq!(state.next_game_id, 3);
    assert_eq!(keys(&state), vec![0, 1, 2]);
    assert_eq!(state.get(1), Some(&Game::new(ben(), here())));
    assert_eq!(state.get(2), Some(&Game::new(ann(), here())));
    assert_eq!(state.get(3), None);
}

#[test]
fn create_operation_announces_the_game() {
    let mut state = TicTacToeState::default();
    let sent = state.execute_operation(ann(), here(), Operation::CreateGame);
    assert_eq!(sent, Ok(Message::GameCreated { game_id: 0, creator: ann() }));
    let sent = state.execute_operation(ben(), here(), Operation::CreateGame);
    assert_eq!(sent, Ok(Message::GameCreated { game_id: 1, creator: ben() }));
    let game = state.get(0).unwrap();
    assert_eq!(game.player_x, ann());
    assert_eq!(game.status, GameStatus::WaitingForPlayer);
    assert_eq!(game.board, [[None; 3]; 3]);
    assert_eq!(game.chain_id, here());
    assert_eq!(state.get(1).unwrap().player_x, ben());
}

#[test]
fn join_operation_announces_the_player() {
    let mut state = TicTacToeState::default();
    state.create_game(ann(), here());
    let sent = state.execute_operation(ben(), here(), Operation::JoinGame { game_id: 0 });
    assert_eq!(sent, Ok(Message::PlayerJoined { game_id: 0, player: ben() }));
    let game = state.get(0).unwrap();
    assert_eq!(game.status, GameStatus::InProgress);
    assert_eq!(game.current_player, Player::X);
    assert_eq!(game.player_o, Some(ben()));
}

#[test]
fn move_operation_announces_the_move() {
    let mut state = one_started_game();
    let sent =
        state.execute_operation(ann(), here(), Operation::MakeMove { game_id: 0, row: 2, col: 1 });
    assert_eq!(sent, Ok(Message::MoveMade { game_id: 0, player: ann(), row: 2, col: 1 }));
    let game = state.get(0).unwrap();
    assert_eq!(game.board[2][1], Some(Player::X));
    assert_eq!(game.current_player, Player::O);
}

#[test]
fn missing_game_is_reported() {
    let mut state = one_started_game();
    let before = state.games.clone();
    assert_eq!(
        state.execute_operation(ben(), here(), Operation::JoinGame { game_id: 1 }),
        Err(OperationError::GameNotFound)
    );
    assert_eq!(
        state.execute_operation(ann(), here(), Operation::MakeMove { game_id: 7, row: 0, col: 0 }),
        Err(OperationError::GameNotFound)
    );
    assert_eq!(state.join_game(u64::MAX, ben()), Err(OperationError::GameNotFound));
    assert_eq!(state.make_move(2, ann(), 0, 0), Err(OperationError::GameNotFound));
    assert_eq!(state.games, before);
    assert_eq!(state.next_game_id, 1);
}

#[test]
fn rejected_join_changes_nothing_and_sends_nothing() {
    let mut state = TicTacToeState::default();
    state.create_game(ann(), here());
    let before = state.games.clone();
    assert_eq!(
        state.execute_operation(ann(), here(), Operation::JoinGame { game_id: 0 }),
        Err(OperationError::Join(JoinError::SelfPlay))
    );
    assert_eq!(state.games, before);
    state.join_game(0, ben()).unwrap();
    let before = state.games.clone();
    assert_eq!(
        state.execute_operation(ann(), here(), Operation::JoinGame { game_id: 0 }),
        Err(OperationError::Join(JoinError::AlreadyFull))
    );
    assert_eq!(state.games, before);
}

#[test]
fn rejected_move_changes_nothing_and_sends_nothing() {
    let mut state = one_started_game();
    state.make_move(0, ann(), 1, 1).unwrap();
    let before = state.games.clone();
    let occupied = Operation::MakeMove { game_id: 0, row: 1, col: 1 };
    assert_eq!(
        state.execute_operation(ben(), here(), occupied),
        Err(OperationError::Move(MoveError::CellOccupied))
    );
    let outside = Operation::MakeMove { game_id: 0, row: 3, col: 1 };
    assert_eq!(
        state.execute_operation(ben(), here(), outside),
        Err(OperationError::Move(MoveError::OutOfBounds))
    );
    let free = Operation::MakeMove { game_id: 0, row: 0, col: 0 };
    assert_eq!(
        state.execute_operation(ann(), here(), free),
        Err(OperationError::Move(MoveError::NotYourTurn))
    );
    assert_eq!(state.games, before);
    assert_eq!(state.next_game_id, 1);
    state.create_game(ben(), here());
    let waiting = Operation::MakeMove { game_id: 1, row: 0, col: 0 };
    assert_eq!(
        state.execute_operation(ben(), here(), waiting),
        Err(OperationError::Move(MoveError::NotInProgress))
    );
}

#[test]
fn operations_touch_only_the_named_game() {
    let mut state = TicTacToeState::default();
    state.create_game(ann(), here());
    state.create_game(ann(), here());
    state.create_game(ben(), here());
    let first = *state.get(0).unwrap();
    let third = *state.get(2).unwrap();
    state.join_game(1, ben()).unwrap();
    state.make_move(1, ann(), 0, 0).unwrap();
    assert_eq!(state.get(0), Some(&first));
    assert_eq!(state.get(2), Some(&third));
    assert_eq!(state.get(1).unwrap().board[0][0], Some(Player::X));
    assert_eq!(keys(&state), vec![0, 1, 2]);
    assert_eq!(state.next_game_id, 3);
}

#[test]
fn game_played_through_operations_is_won() {
    let mut state = one_started_game();
    let moves = [(ann(), 0, 0), (ben(), 1, 1), (ann(), 0, 1), (ben(), 2, 2), (ann(), 0, 2)];
    for (player, row, col) in moves {
        let sent =
            state.execute_operation(player, here(), Operation::MakeMove { game_id: 0, row, col });
        assert_eq!(sent, Ok(Message::MoveMade { game_id: 0, player, row, col }));
    }
    assert_eq!(state.get(0).unwrap().status, GameStatus::Won(Player::X));
    assert_eq!(
        state.execute_operation(ben(), here(), Operation::MakeMove { game_id: 0, row: 2, col: 0 }),
        Err(OperationError::Move(MoveError::NotInProgress))
    );
}

#[test]
fn messages_from_other_chains_change_nothing() {
    let mut state = one_started_game();
    let games = state.games.clone();
    state.execute_message(Message::GameCreated { game_id: 0, creator: ben() });
    state.execute_message(Message::PlayerJoined { game_id: 5, player: ann() });
    state.execute_message(Message::MoveMade { game_id: 0, player: ann(), row: 0, col: 0 });
    assert_eq!(state.games, games);
    assert_eq!(state.next_game_id, 1);
}
