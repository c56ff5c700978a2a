use linera_base::crypto::CryptoHash;
use linera_base::identifiers::{AccountOwner, ChainId};
use tic_tac_toe::{GameFilter, GameStats, GameView, Game, TicTacToeState};

const CAT: &str = "Address20(0c0c0c0c0c0c0c0c0c0c0c0c0c0c0c0c0c0c0c0c)";
const DOG: &str = "Address20(0d0d0d0d0d0d0d0d0d0d0d0d0d0d0d0d0d0d0d0d)";
const HOME: &str = "0505050505050505050505050505050505050505050505050505050505050505";

fn cat() -> AccountOwner {
    AccountOwner::Address20([0x0c; 20])
}

fn dog() -> AccountOwner {
    AccountOwner::Address20([0x0d; 20])
}

fn emu() -> AccountOwner {
    AccountOwner::Reserved(5)
}

fn home() -> ChainId {
    ChainId(CryptoHash::from([5u8; 32]))
}

fn text(s: &str) -> Option<String> {
    Some(s.to_string())
}

/// Game 0 waits, game 1 is in progress, game 2 is won by X, game 3 waits,
/// game 4 is drawn.
fn five_games() -> TicTacToeState {
    let mut state = TicTacToeState::default();
    state.create_game(cat(), home());
    state.create_game(cat(), home());
    state.create_game(dog(), home());
    state.create_game(emu(), home());
    state.create_game(dog(), home());
    state.join_game(1, dog()).unwrap();
    state.make_move(1, cat(), 1, 1).unwrap();
    state.join_game(2, emu()).unwrap();
    for (player, row, col) in [(dog(), 0, 0), (emu(), 1, 0), (dog(), 0, 1), (emu(), 1, 1), (dog(), 0, 2)] {
        state.make_move(2, player, row, col).unwrap();
    }
    state.join_game(4, cat()).unwrap();
    let moves = [(0, 0), (0, 1), (0, 2), (1, 1), (1, 0), (1, 2), (2, 1), (2, 0), (2, 2)];
    for (n, (row, col)) in moves.iter().enumerate() {
        let player = if n % 2 == 0 { dog() } else { cat() };
        state.make_move(4, player, *row, *col).unwrap();
    }
    state
}

fn ids(shown: &[GameView]) -> Vec<u64> {
    shown.iter().map(|view| view.id).collect()
}

#[test]
fn view_of_a_new_game() {
    let game = Game::new(cat(), home());
    let view = GameView::from((17, &game));
    assert_eq!(view.id, 17);
    assert_eq!(view.player_x, CAT);
    assert_eq!(view.player_o, None);
    assert_eq!(view.board, vec![vec![None::<String>; 3]; 3]);
    assert_eq!(view.current_player, "X");
    assert_eq!(view.status, "Waiting for player");
    assert_eq!(view.chain_id, HOME);
}

#[test]
fn view_of_a_game_in_progress() {
    let state = five_games();
    let view = GameView::from((1, state.get(1).unwrap()));
    assert_eq!(view.player_x, CAT);
    assert_eq!(view.player_o, text(DOG));
    assert_eq!(
        view.board,
        vec![vec![None, None, None], vec![None, text("X"), None], vec![None, None, None]]
    );
    assert_eq!(view.current_player, "O");
    assert_eq!(view.status, "In progress");
}

#[test]
fn view_of_finished_games() {
    let state = five_games();
    let won = state.game(2).unwrap();
    assert_eq!(won.status, "Won by X");
    assert_eq!(won.current_player, "X");
    assert_eq!(won.player_x, DOG);
    assert_eq!(won.player_o, text("Reserved(5)"));
    assert_eq!(
        won.board,
        vec![
            vec![text("X"), text("X"), text("X")],
            vec![text("O"), text("O"), None],
            vec![None, None, None]
        ]
    );
    let drawn = state.game(4).unwrap();
    assert_eq!(drawn.status, "Draw");
    assert_eq!(
        drawn.board,
        vec![
            vec![text("X"), text("O"), text("X")],
            vec![text("X"), text("O"), text("O")],
            vec![text("O"), text("X"), text("X")]
        ]
    );
}

#[test]
fn view_of_a_game_won_by_o() {
    let mut state = TicTacToeState::default();
    state.create_game(cat(), home());
    state.join_game(0, dog()).unwrap();
    let moves =
        [(cat(), 0, 0), (dog(), 1, 1), (cat(), 0, 1), (dog(), 0, 2), (cat(), 1, 0), (dog(), 2, 0)];
    for (player, row, col) in moves {
        state.make_move(0, player, row, col).unwrap();
    }
    let view = state.game(0).unwrap();
    assert_eq!(view.status, "Won by O");
    assert_eq!(view.current_player, "O");
}

#[test]
fn game_by_identifier() {
    let state = five_games();
    assert_eq!(state.game(3), Some(GameView::from((3, &Game::new(emu(), home())))));
    assert_eq!(state.game(0).unwrap().id, 0);
    assert_eq!(state.game(5), None);
    assert_eq!(TicTacToeState::default().game(0), None);
}

#[test]
fn all_games_by_increasing_identifier() {
    let state = five_games();
    let shown = state.games();
    assert_eq!(ids(&shown), vec![0, 1, 2, 3, 4]);
    for view in &shown {
        assert_eq!(Some(view.clone()), state.game(view.id));
    }
    assert!(TicTacToeState::default().games().is_empty());
}

#[test]
fn games_by_status() {
    let state = five_games();
    assert_eq!(ids(&state.waiting_games()), vec![0, 3]);
    assert_eq!(ids(&state.active_games()), vec![1]);
    assert_eq!(ids(&state.completed_games()), vec![2, 4]);
    assert_eq!(state.waiting_games()[1], state.game(3).unwrap());
    assert_eq!(state.completed_games()[0], state.game(2).unwrap());
}

#[test]
fn games_of_a_player() {
    let state = five_games();
    assert_eq!(ids(&state.games_for_player(CAT.to_string())), vec![0, 1, 4]);
    assert_eq!(ids(&state.games_for_player(DOG.to_string())), vec![1, 2, 4]);
    assert_eq!(ids(&state.games_for_player("Reserved(5)".to_string())), vec![2, 3]);
    assert!(state.games_for_player("Reserved(6)".to_string()).is_empty());
    assert!(state.games_for_player(String::new()).is_empty());
    assert!(state.games_for_player(HOME.to_string()).is_empty());
}

#[test]
fn filters_select_and_count_alike() {
    let state = five_games();
    let filters = [
        (GameFilter::All, 5),
        (GameFilter::Waiting, 2),
        (GameFilter::Active, 1),
        (GameFilter::Completed, 2),
        (GameFilter::Player(DOG.to_string()), 3),
        (GameFilter::Player("nobody".to_string()), 0),
    ];
    for (filter, expected) in filters {
        assert_eq!(state.count(&filter), expected);
        assert_eq!(state.select(&filter).len() as u64, expected);
    }
    let game = state.get(1).unwrap();
    assert!(GameFilter::Active.selects(game));
    assert!(!GameFilter::Waiting.selects(game));
    assert!(!GameFilter::Completed.selects(game));
    assert!(GameFilter::Player(CAT.to_string()).selects(game));
    assert!(GameFilter::Player(DOG.to_string()).selects(game));
    assert!(!GameFilter::Player("Reserved(5)".to_string()).selects(game));
}

#[test]
fn statistics_count_by_status() {
    let state = five_games();
    assert_eq!(
        state.stats(),
        GameStats { total_games: 5, waiting_games: 2, active_games: 1, completed_games: 2 }
    );
    assert_eq!(
        TicTacToeState::default().stats(),
        GameStats { total_games: 0, waiting_games: 0, active_games: 0, completed_games: 0 }
    );
}

#[test]
fn statistics_follow_the_games() {
    let mut state = TicTacToeState::default();
    state.create_game(cat(), home());
    assert_eq!(
        state.stats(),
        GameStats { total_games: 1, waiting_games: 1, active_games: 0, completed_games: 0 }
    );
    state.join_game(0, dog()).unwrap();
    assert_eq!(
        state.stats(),
        GameStats { total_games: 1, waiting_games: 0, active_games: 1, completed_games: 0 }
    );
    for (player, row, col) in [(cat(), 0, 0), (dog(), 1, 1), (cat(), 0, 1), (dog(), 2, 2), (cat(), 0, 2)] {
        state.make_move(0, player, row, col).unwrap();
    }
    let stats = state.stats();
    assert_eq!(
        stats,
        GameStats { total_games: 1, waiting_games: 0, active_games: 0, completed_games: 1 }
    );
    assert_eq!(stats.waiting_games + stats.active_games + stats.completed_games, stats.total_games);
}
