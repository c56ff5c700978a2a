use crate::identity::{owner_text, owner_to_text};
use crate::registry::TicTacToeState;
use crate::state::{Game, GameStatus};
use crate::view::{project, GameView, GameViewData};
use vstd::prelude::*;
use vstd::set_lib::{lemma_len_subset, lemma_set_disjoint_lens};
use vstd::std_specs::btree::increasing_seq;
use vstd::std_specs::cmp::OrdSpec;
use vstd::std_specs::iter::IteratorSpec;

verus! {

/// Which games a query asks for.
#[derive(Clone, Debug, PartialEq, Eq)]
pub enum GameFilter {
    /// Every game.
    All,
    /// The games that wait for their second player.
    Waiting,
    /// The games in progress.
    Active,
    /// The games that are won or drawn.
    Completed,
    /// The games in which the player with this name plays `X` or `O`. The
    /// name of a player is the text that `Debug` writes for the account owner.
    Player(String),
}

impl GameFilter {
    /// Whether the filter asks for `game`.
    pub open spec fn accepts(self, game: Game) -> bool {
        match self {
            GameFilter::All => true,
            GameFilter::Waiting => game.status is WaitingForPlayer,
            GameFilter::Active => game.status is InProgress,
            GameFilter::Completed => game.status is Won || game.status is Draw,
            GameFilter::Player(name) => {
                ||| owner_text(game.player_x) == name@
                ||| (game.player_o matches Some(player_o) && owner_text(player_o) == name@)
            },
        }
    }

    /// Tells whether the filter asks for `game`.
    pub fn selects(&self, game: &Game) -> (wanted: bool)
        ensures
            wanted == self.accepts(*game),
    {
        match self {
            GameFilter::All => true,
            GameFilter::Waiting => matches!(game.status, GameStatus::WaitingForPlayer),
            GameFilter::Active => matches!(game.status, GameStatus::InProgress),
            GameFilter::Completed => matches!(game.status, GameStatus::Won(_) | GameStatus::Draw),
            GameFilter::Player(name) => {
                if owner_to_text(&game.player_x) == *name {
                    true
                } else {
                    match game.player_o {
                        Some(player_o) => owner_to_text(&player_o) == *name,
                        None => false,
                    }
                }
            },
        }
    }
}

/// How many games there are, in all and by status.
#[derive(Clone, Copy, Debug, PartialEq, Eq, Structural)]
pub struct GameStats {
    pub total_games: u64,
    pub waiting_games: u64,
    pub active_games: u64,
    pub completed_games: u64,
}

/// The identifiers of the games of `games` that `filter` asks for.
pub open spec fn selected(games: Map<u64, Game>, filter: GameFilter) -> Set<u64> {
    Set::new(|id: u64| games.contains_key(id) && filter.accepts(games[id]))
}

/// What a list of views shows.
pub open spec fn shown_data(shown: Seq<GameView>) -> Seq<GameViewData> {
    shown.map_values(|view: GameView| view@)
}

/// Whether `shown` lists the games of `games` that `filter` asks for: each of
/// them once, as `project` shows it, by increasing identifier, and nothing
/// else.
pub open spec fn lists(
    shown: Seq<GameViewData>,
    games: Map<u64, Game>,
    filter: GameFilter,
) -> bool {
    &&& forall|i: int|
        0 <= i < shown.len() ==> {
            let id = (#[trigger] shown[i]).id;
            &&& selected(games, filter).contains(id)
            &&& shown[i] == project(id, games[id])
        }
    &&& forall|i: int, j: int|
        0 <= i < j < shown.len() ==> (#[trigger] shown[i]).id < (#[trigger] shown[j]).id
    &&& forall|id: u64| #[trigger]
        selected(games, filter).contains(id) ==> exists|i: int|
            0 <= i < shown.len() && (#[trigger] shown[i]).id == id
}

/// Identifiers that a map hands out in increasing order grow strictly.
proof fn lemma_increasing_ids(ids: Seq<u64>)
    requires
        increasing_seq(ids),
    ensures
        forall|i: int, j: int| 0 <= i < j < ids.len() ==> ids[i] < ids[j],
{
    assert forall|i: int, j: int| 0 <= i < j < ids.len() implies ids[i] < ids[j] by {
        assert(ids[i].cmp_spec(&ids[j]) is Less);
    }
}

impl TicTacToeState {
    /// Shows the games that `filter` asks for, by increasing identifier.
    pub fn select(&self, filter: &GameFilter) -> (shown: Vec<GameView>)
        ensures
            lists(shown_data(shown@), self@.games, *filter),
            filter is All ==> shown@.len() == self@.games.len(),
    {
        let mut shown: Vec<GameView> = Vec::new();
        let ghost entries = self.games.iter().remaining();
        let ghost ids = entries.map_values(|entry: (&u64, &Game)| *entry.0);
        let ghost games = self@.games;
        // For each view in `shown`, the place of its game among the entries.
        let ghost mut places: Seq<int> = Seq::empty();
        for entry in it: self.games.iter()
            invariant
                it.seq() == entries,
                entries == self.games.iter().remaining(),
                ids == entries.map_values(|entry: (&u64, &Game)| *entry.0),
                games == self@.games,
                increasing_seq(ids),
                places.len() == shown@.len(),
                shown@.len() <= it.index(),
                *filter is All ==> shown@.len() == it.index(),
                forall|n: int|
                    0 <= n < places.len() ==> {
                        let place = #[trigger] places[n];
                        &&& 0 <= place < it.index()
                        &&& shown@[n]@ == project(ids[place], games[ids[place]])
                        &&& games.contains_key(ids[place])
                        &&& filter.accepts(games[ids[place]])
                    },
                forall|n: int, m: int|
                    0 <= n < m < places.len() ==> (#[trigger] places[n]) < (#[trigger] places[m]),
                forall|place: int|
                    0 <= place < it.index() && filter.accepts(games[#[trigger] ids[place]])
                        ==> places.contains(place),
        {
            let (id, game) = entry;
            let ghost place = it.index();
            assert(entries[place] == (id, game));
            assert(ids[place] == *id);
            assert(games.contains_key(*entries[place].0) && games[*entries[place].0] == *game);
            let ghost before = places;
            if filter.selects(game) {
                shown.push(GameView::from((*id, game)));
                proof {
                    places = places.push(place);
                    assert(forall|n: int| 0 <= n < before.len() ==> places[n] == before[n]);
                    assert forall|other: int|
                        0 <= other < it.index() + 1 && filter.accepts(
                            games[#[trigger] ids[other]],
                        ) implies places.contains(other) by {
                        if other < place {
                            assert(before.contains(other));
                            let n = choose|n: int| 0 <= n < before.len() && before[n] == other;
                            assert(places[n] == other);
                        } else {
                            assert(places[before.len() as int] == other);
                        }
                    }
                }
            }
        }
        proof {
            lemma_increasing_ids(ids);
            let data = shown_data(shown@);
            assert forall|i: int| 0 <= i < data.len() implies {
                let id = (#[trigger] data[i]).id;
                &&& selected(games, *filter).contains(id)
                &&& data[i] == project(id, games[id])
            } by {
                let place = places[i];
                assert(data[i] == shown@[i]@);
            }
            assert forall|i: int, j: int| 0 <= i < j < data.len() implies (#[trigger] data[i]).id
                < (#[trigger] data[j]).id by {
                assert(places[i] < places[j]);
                assert(data[i] == shown@[i]@);
                assert(data[j] == shown@[j]@);
            }
            assert forall|id: u64| #[trigger]
                selected(games, *filter).contains(id) implies exists|i: int|
                0 <= i < data.len() && (#[trigger] data[i]).id == id by {
                assert(entries.contains((&id, &games[id])));
                let place = choose|place: int|
                    0 <= place < entries.len() && entries[place] == (&id, &games[id]);
                assert(ids[place] == id);
                assert(places.contains(place));
                let n = choose|n: int| 0 <= n < places.len() && places[n] == place;
                assert(data[n] == shown@[n]@);
                assert(data[n].id == id);
            }
        }
        shown
    }

    /// Counts the games that `filter` asks for.
    pub fn count(&self, filter: &GameFilter) -> (number: u64)
        ensures
            number == selected(self@.games, *filter).len(),
    {
        let mut number: u64 = 0;
        let total = self.games.len();
        let ghost entries = self.games.iter().remaining();
        let ghost ids = entries.map_values(|entry: (&u64, &Game)| *entry.0);
        let ghost games = self@.games;
        let ghost wanted = selected(games, *filter);
        let ghost mut seen: Set<u64> = Set::empty();
        for entry in it: self.games.iter()
            invariant
                it.seq() == entries,
                entries == self.games.iter().remaining(),
                ids == entries.map_values(|entry: (&u64, &Game)| *entry.0),
                games == self@.games,
                wanted == selected(games, *filter),
                increasing_seq(ids),
                entries.len() == total,
                seen.finite(),
                number == seen.len(),
                number <= it.index(),
                forall|id: u64| #[trigger]
                    seen.contains(id) ==> wanted.contains(id) && (it.index() < ids.len() ==> id
                        < ids[it.index()]),
                forall|place: int|
                    0 <= place < it.index() && wanted.contains(#[trigger] ids[place])
                        ==> seen.contains(ids[place]),
        {
            let (id, game) = entry;
            let ghost place = it.index();
            assert(entries[place] == (id, game));
            assert(ids[place] == *id);
            assert(games.contains_key(*entries[place].0) && games[*entries[place].0] == *game);
            proof {
                lemma_increasing_ids(ids);
            }
            if filter.selects(game) {
                proof {
                    seen = seen.insert(*id);
                }
                number += 1;
            }
        }
        proof {
            assert forall|id: u64| wanted.contains(id) implies seen.contains(id) by {
                assert(entries.contains((&id, &games[id])));
                let place = choose|place: int|
                    0 <= place < entries.len() && entries[place] == (&id, &games[id]);
                assert(ids[place] == id);
            }
            assert(seen =~= wanted);
        }
        number
    }

    /// Shows every game.
    pub fn games(&self) -> (shown: Vec<GameView>)
        ensures
            lists(shown_data(shown@), self@.games, GameFilter::All),
            shown@.len() == self@.games.len(),
    {
        self.select(&GameFilter::All)
    }

    /// Shows the game with the identifier `id`, if there is one.
    pub fn game(&self, id: u64) -> (shown: Option<GameView>)
        ensures
            match shown {
                Some(view) => self@.games.contains_key(id) && view@ == project(id, self@.games[id]),
                None => !self@.games.contains_key(id),
            },
    {
        match self.games.get(&id) {
            Some(game) => Some(GameView::from((id, game))),
            None => None,
        }
    }

    /// Shows the games in which the player with the name `player` takes part.
    pub fn games_for_player(&self, player: String) -> (shown: Vec<GameView>)
        ensures
            lists(shown_data(shown@), self@.games, GameFilter::Player(player)),
    {
        self.select(&GameFilter::Player(player))
    }

    /// Shows the games that wait for their second player.
    pub fn waiting_games(&self) -> (shown: Vec<GameView>)
        ensures
            lists(shown_data(shown@), self@.games, GameFilter::Waiting),
    {
        self.select(&GameFilter::Waiting)
    }

    /// Shows the games in progress.
    pub fn active_games(&self) -> (shown: Vec<GameView>)
        ensures
            lists(shown_data(shown@), self@.games, GameFilter::Active),
    {
        self.select(&GameFilter::Active)
    }

    /// Shows the games that are won or drawn.
    pub fn completed_games(&self) -> (shown: Vec<GameView>)
        ensures
            lists(shown_data(shown@), self@.games, GameFilter::Completed),
    {
        self.select(&GameFilter::Completed)
    }

    /// Counts the games, in all and by status.
    pub fn stats(&self) -> (stats: GameStats)
        ensures
            stats.total_games == self@.games.len(),
            stats.waiting_games == selected(self@.games, GameFilter::Waiting).len(),
            stats.active_games == selected(self@.games, GameFilter::Active).len(),
            stats.completed_games == selected(self@.games, GameFilter::Completed).len(),
            stats.waiting_games + stats.active_games + stats.completed_games == stats.total_games,
    {
        proof {
            lemma_statuses_partition(self@.games);
        }
        GameStats {
            total_games: self.games.len() as u64,
            waiting_games: self.count(&GameFilter::Waiting),
            active_games: self.count(&GameFilter::Active),
            completed_games: self.count(&GameFilter::Completed),
        }
    }
}

/// Every game waits, is in progress or is over: the three counts add up to
/// the number of games.
pub proof fn lemma_statuses_partition(games: Map<u64, Game>)
    requires
        games.dom().finite(),
    ensures
        selected(games, GameFilter::Waiting).len() + selected(games, GameFilter::Active).len()
            + selected(games, GameFilter::Completed).len() == games.len(),
{
    let waiting = selected(games, GameFilter::Waiting);
    let active = selected(games, GameFilter::Active);
    let completed = selected(games, GameFilter::Completed);
    assert(waiting.subset_of(games.dom()));
    assert(active.subset_of(games.dom()));
    assert(completed.subset_of(games.dom()));
    lemma_len_subset(waiting, games.dom());
    lemma_len_subset(active, games.dom());
    lemma_len_subset(completed, games.dom());
    lemma_set_disjoint_lens(waiting, active);
    lemma_set_disjoint_lens(waiting + active, completed);
    assert(waiting + active + completed =~= games.dom());
}

} // verus!
