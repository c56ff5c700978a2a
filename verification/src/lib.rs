//! Tic-tac-toe between two account owners, as one chain keeps it: the rules
//! of a game, the registry of all games of the chain, the operations that
//! players ask for with the messages they cause, and what queries show.

pub mod board;
pub mod contract;
pub mod identity;
pub mod laws;
pub mod registry;
pub mod service;
pub mod state;
pub mod symmetry;
pub mod view;

pub use board::{Board, Player};
pub use contract::{Message, Operation};
pub use registry::{OperationError, TicTacToeState};
pub use service::{GameFilter, GameStats};
pub use state::{Game, GameStatus, JoinError, MoveError};
pub use view::GameView;
