//! The session registry: bounded pools of players and games, the links
//! between them, and the operations the service offers.
//!
//! Both pools are insertion-ordered and fixed-capacity: inserting past the
//! capacity evicts the single oldest entry. A player holds no owning
//! reference to its game, only the game's sequence number; every access
//! re-resolves that number against the live pool, and a number that no longer
//! resolves is the ordinary "no active game" condition, never a fault.

use crate::error::Error;
use crate::game::{
    app_move_board, app_move_result, cell_index, empty_board, move_entropy, winner_of, Game,
    GameMove, Tile,
};
use crate::request_response::{is_state_response, winner_label, winner_string, Response};
use crate::rng::{draw_bool, isaac_bool};
use crate::{GAMES_MAX_COUNT, PLAYERS_MAX_COUNT, USER_NAME_MAX_LEN};
use vstd::prelude::*;
use vstd::std_specs::vec::{vec_index, vec_index_mut};
use vstd::string::StrSliceExecFns;

verus! {

broadcast use vstd::slice::axiom_spec_len;

/// A registered player: the display name, and the sequence number of the game
/// currently linked to it, if any.
pub struct Player {
    pub name: String,
    pub game_seq: Option<u64>,
}

/// The monotonic usage counters. They count creation events, not the current
/// population: they never decrease, eviction included.
#[derive(Debug, Copy, Clone, PartialEq, Eq, Structural)]
pub struct GameStatistics {
    /// Overall count of players that have been registered.
    pub players_created: u64,
    /// Overall count of games that have been created.
    pub games_created: u64,
    /// Overall count of moves that have been made.
    pub moves_count: u64,
}

/// The registry itself: the two bounded pools and the counters.
pub struct GameManager {
    pub players: Vec<Player>,
    pub games: Vec<Game>,
    pub game_statistics: GameStatistics,
}

/// A counter bump that can never overflow; the counters move so far below the
/// `u64` boundary that the saturation case is unreachable in practice.
pub open spec fn bump(c: u64) -> u64 {
    if c == u64::MAX {
        c
    } else {
        (c + 1) as u64
    }
}

/// A bounded insertion: the sequence without its oldest entry if it is at
/// capacity, unchanged otherwise — what remains once a new entry is pushed.
pub open spec fn fifo_tail<T>(s: Seq<T>, cap: int) -> Seq<T> {
    if s.len() < cap {
        s
    } else {
        s.subrange(1, s.len() as int)
    }
}

/// The index of the first player from `i` on whose name is `name`.
pub open spec fn find_player_from(s: Seq<Player>, name: Seq<char>, i: int) -> Option<int>
    decreases s.len() - i,
{
    if i < 0 || i >= s.len() {
        None
    } else if s[i].name@ == name {
        Some(i)
    } else {
        find_player_from(s, name, i + 1)
    }
}

/// When the search fails, no player from `i` on bears the name.
pub proof fn lemma_find_none(s: Seq<Player>, name: Seq<char>, i: int)
    requires
        0 <= i <= s.len(),
        find_player_from(s, name, i) is None,
    ensures
        forall|j: int| i <= j < s.len() ==> s[j].name@ != name,
    decreases s.len() - i,
{
    if 0 <= i < s.len() {
        lemma_find_none(s, name, i + 1);
    }
}

/// When the search succeeds, it names the first match.
pub proof fn lemma_find_some(s: Seq<Player>, name: Seq<char>, i: int, p: int)
    requires
        find_player_from(s, name, i) == Some(p),
    ensures
        i <= p < s.len(),
        s[p].name@ == name,
        forall|j: int| i <= j < p ==> s[j].name@ != name,
    decreases s.len() - i,
{
    if 0 <= i < s.len() && s[i].name@ != name {
        lemma_find_some(s, name, i + 1, p);
    }
}

/// When no player from `i` on bears the name, the search fails.
pub proof fn lemma_not_found(s: Seq<Player>, name: Seq<char>, i: int)
    requires
        forall|j: int| i <= j < s.len() ==> s[j].name@ != name,
    ensures
        find_player_from(s, name, i) is None,
    decreases s.len() - i,
{
    if 0 <= i < s.len() {
        lemma_not_found(s, name, i + 1);
    }
}

/// The name exceeds the configured bound, measured in bytes of its UTF-8
/// encoding.
pub open spec fn name_too_long(name: Seq<char>) -> bool {
    vstd::utf8::encode_utf8(name).len() > USER_NAME_MAX_LEN
}

/// Relies on `str`'s `PartialEq`: two string slices are equal exactly when
/// their character sequences are.
#[verifier::external_body]
fn str_eq(a: &str, b: &str) -> (r: bool)
    ensures
        r == (a@ == b@),
{
    a == b
}

impl GameManager {
    /// Well-formedness: the pools respect their capacities, names are unique,
    /// every game has a proper board, and the games pool never outnumbers the
    /// games ever created.
    pub open spec fn wf(self) -> bool {
        &&& self.players@.len() <= PLAYERS_MAX_COUNT
        &&& self.games@.len() <= GAMES_MAX_COUNT
        &&& self.games@.len() <= self.game_statistics.games_created
        &&& forall|i: int, j: int|
            0 <= i < j < self.players@.len() ==> self.players@[i].name@ != self.players@[j].name@
        &&& forall|i: int| 0 <= i < self.games@.len() ==> (#[trigger] self.games@[i]).wf()
    }

    /// The index of the player with this name, if registered.
    pub open spec fn find_player(self, name: Seq<char>) -> Option<int> {
        find_player_from(self.players@, name, 0)
    }

    /// The sequence number of the oldest game still in the pool. The live
    /// games bear the numbers `[window_start, games_created)`, in order.
    pub open spec fn window_start(self) -> int {
        self.game_statistics.games_created - self.games@.len()
    }

    /// The index of the live game with sequence number `seq`, if it has not
    /// been evicted.
    pub open spec fn resolve_seq(self, seq: u64) -> Option<int> {
        if self.window_start() <= seq < self.game_statistics.games_created {
            Some(seq - self.window_start())
        } else {
            None
        }
    }

    /// The index of the game the player at `p` is linked to, if the link
    /// resolves.
    pub open spec fn player_game(self, p: int) -> Option<int> {
        match self.players@[p].game_seq {
            Some(seq) => self.resolve_seq(seq),
            None => None,
        }
    }

    /// An empty registry.
    pub fn new() -> (gm: GameManager)
        ensures
            gm.wf(),
            gm.players@.len() == 0,
            gm.games@.len() == 0,
            gm.game_statistics == (GameStatistics {
                players_created: 0,
                games_created: 0,
                moves_count: 0,
            }),
    {
        GameManager {
            players: Vec::new(),
            games: Vec::new(),
            game_statistics: GameStatistics { players_created: 0, games_created: 0, moves_count: 0 },
        }
    }

    /// Finds a player by name in the pool.
    fn get_player(&self, player_name: &str) -> (r: Option<usize>)
        ensures
            match r {
                Some(p) => self.find_player(player_name@) == Some(p as int),
                None => self.find_player(player_name@) is None,
            },
    {
        let mut i: usize = 0;
        while i < self.players.len()
            invariant
                i <= self.players@.len(),
                find_player_from(self.players@, player_name@, 0) == find_player_from(
                    self.players@,
                    player_name@,
                    i as int,
                ),
            decreases self.players@.len() - i,
        {
            if str_eq(vec_index(&self.players, i).name.as_str(), player_name) {
                return Some(i);
            }
            i += 1;
        }
        None
    }

    /// Resolves the game link of the player at `p` against the live pool.
    fn resolve_game(&self, p: usize) -> (r: Option<usize>)
        requires
            self.wf(),
            p < self.players@.len(),
        ensures
            match r {
                Some(g) => self.player_game(p as int) == Some(g as int) && g < self.games@.len(),
                None => self.player_game(p as int) is None,
            },
    {
        match vec_index(&self.players, p).game_seq {
            Some(seq) => {
                let created = self.game_statistics.games_created;
                let len = self.games.len() as u64;
                if seq < created && created - seq <= len {
                    Some((len - (created - seq)) as usize)
                } else {
                    None
                }
            },
            None => None,
        }
    }

    /// Builds the state response for one game.
    pub fn serialize_game_state(&self, game: &Game) -> (resp: Response)
        requires
            game.wf(),
        ensures
            is_state_response(resp, *game),
    {
        let (chosen_tile, board) = game.get_state();
        let winner = winner_string(game.get_winner());
        Response::GameState { board, player_tile: chosen_tile.to_char(), winner }
    }

    /// Nothing observable moved: the pools and the counters are as before.
    pub open spec fn unchanged(pre: GameManager, post: GameManager) -> bool {
        &&& post.players@ == pre.players@
        &&& post.games@ == pre.games@
        &&& post.game_statistics == pre.game_statistics
    }

    /// What creating a game for `name` does: fails only for an unknown name;
    /// otherwise a tile is drawn from the games-created counter, a fresh game
    /// is built (the application moving first when the player drew the
    /// second-moving tile), the player is re-linked to it, the counter is
    /// bumped, and the new game enters the pool, evicting the oldest on
    /// overflow. The response describes the new game.
    pub open spec fn create_game_post(
        pre: GameManager,
        post: GameManager,
        name: Seq<char>,
        r: Result<Response, Error>,
    ) -> bool {
        match pre.find_player(name) {
            None => r == Err::<Response, Error>(Error::PlayerNotFound) && GameManager::unchanged(pre, post),
            Some(p) => {
                let entropy = pre.game_statistics.games_created;
                let tile = if isaac_bool(entropy) {
                    Tile::X
                } else {
                    Tile::O
                };
                let board = if tile == Tile::O {
                    app_move_board(empty_board(), tile, entropy)
                } else {
                    empty_board()
                };
                &&& post.games@.len() >= 1
                &&& post.games@.drop_last() == fifo_tail(pre.games@, GAMES_MAX_COUNT as int)
                &&& post.games@.last().player_tile == tile
                &&& post.games@.last().board@ == board
                &&& post.players@.len() == pre.players@.len()
                &&& forall|j: int|
                    0 <= j < pre.players@.len() && j != p ==> post.players@[j] == pre.players@[j]
                &&& post.players@[p].name == pre.players@[p].name
                &&& post.players@[p].game_seq == Some(entropy)
                &&& post.game_statistics == (GameStatistics {
                    players_created: pre.game_statistics.players_created,
                    games_created: bump(entropy),
                    moves_count: pre.game_statistics.moves_count,
                })
                &&& r is Ok
                &&& is_state_response(r->Ok_0, post.games@.last())
            },
        }
    }

    /// Draws the tile assigned to the player of the next game: a 50/50 draw
    /// seeded from the games-created counter.
    fn generate_tile(&self) -> (t: Tile)
        ensures
            t == if isaac_bool(self.game_statistics.games_created) {
                Tile::X
            } else {
                Tile::O
            },
    {
        if draw_bool(self.game_statistics.games_created) {
            Tile::X
        } else {
            Tile::O
        }
    }

    /// Creates a new game for the player. The previous game, if any, is
    /// orphaned: the player's link is re-pointed at the new game.
    pub fn create_game(&mut self, player_name: &str) -> (r: Result<Response, Error>)
        requires
            old(self).wf(),
        ensures
            final(self).wf(),
            GameManager::create_game_post(*old(self), *final(self), player_name@, r),
    {
        let p = match self.get_player(player_name) {
            Some(p) => p,
            None => {
                return Err(Error::PlayerNotFound);
            },
        };
        proof {
            lemma_find_some(self.players@, player_name@, 0, p as int);
        }
        let player_tile = self.generate_tile();
        let mut game = Game::new(player_tile);
        let entropy = self.game_statistics.games_created;
        if player_tile == Tile::O {
            game.app_move(entropy);
        }
        let response = self.serialize_game_state(&game);
        let player_ref = vec_index_mut(&mut self.players, p);
        player_ref.game_seq = Some(entropy);
        self.game_statistics.games_created = self.game_statistics.games_created.saturating_add(1);
        if self.games.len() == GAMES_MAX_COUNT {
            self.games.remove(0);
        }
        self.games.push(game);
        proof {
            assert(self.games@.drop_last() =~= fifo_tail(old(self).games@, GAMES_MAX_COUNT as int));
        }
        Ok(response)
    }

    /// What registering an unseen name does to the pool: the new player, not
    /// yet linked to any game, is pushed behind the survivors (the oldest
    /// entry leaves on overflow), the players-created counter is bumped, and
    /// nothing else moves.
    pub open spec fn registered_player_rel(pre: GameManager, mid: GameManager, name: Seq<char>) -> bool {
        &&& pre.find_player(name) is None
        &&& mid.players@.len() >= 1
        &&& mid.players@.drop_last() == fifo_tail(pre.players@, PLAYERS_MAX_COUNT as int)
        &&& mid.players@.last().name@ == name
        &&& mid.players@.last().game_seq is None
        &&& mid.games@ == pre.games@
        &&& mid.game_statistics == (GameStatistics {
            players_created: bump(pre.game_statistics.players_created),
            games_created: pre.game_statistics.games_created,
            moves_count: pre.game_statistics.moves_count,
        })
    }

    /// What a login does. An over-long name is rejected outright. A known
    /// name with a live game gets that game's state back, with no mutation at
    /// all (re-login is idempotent). A known name whose game was evicted gets
    /// a fresh game. An unseen name is registered first — counted, and
    /// evicting the oldest player on overflow — and then gets a fresh game.
    pub open spec fn login_post(
        pre: GameManager,
        post: GameManager,
        name: Seq<char>,
        r: Result<Response, Error>,
    ) -> bool {
        if name_too_long(name) {
            r == Err::<Response, Error>(Error::NameTooLong) && GameManager::unchanged(pre, post)
        } else {
            match pre.find_player(name) {
                Some(p) => {
                    if pre.player_game(p) is Some {
                        &&& GameManager::unchanged(pre, post)
                        &&& r is Ok
                        &&& is_state_response(r->Ok_0, pre.games@[pre.player_game(p)->Some_0])
                    } else {
                        GameManager::create_game_post(pre, post, name, r)
                    }
                },
                None => exists|mid: GameManager|
                    #[trigger] GameManager::registered_player_rel(pre, mid, name)
                        && GameManager::create_game_post(mid, post, name, r),
            }
        }
    }

    /// Logs a player in, registering the name first if it is unseen.
    pub fn login(&mut self, player_name: &str) -> (r: Result<Response, Error>)
        requires
            old(self).wf(),
        ensures
            final(self).wf(),
            GameManager::login_post(*old(self), *final(self), player_name@, r),
    {
        if player_name.as_bytes().len() > USER_NAME_MAX_LEN {
            return Err(Error::NameTooLong);
        }
        match self.get_player(player_name) {
            Some(p) => {
                proof {
                    lemma_find_some(self.players@, player_name@, 0, p as int);
                }
                if let Some(g) = self.resolve_game(p) {
                    let game = vec_index(&self.games, g);
                    return Ok(self.serialize_game_state(game));
                }
                // The link is stale: the game was evicted. Start a fresh one.
                self.create_game(player_name)
            },
            None => {
                proof {
                    lemma_find_none(self.players@, player_name@, 0);
                }
                let player = Player { name: player_name.to_owned(), game_seq: None };
                if self.players.len() == PLAYERS_MAX_COUNT {
                    self.players.remove(0);
                }
                self.players.push(player);
                self.game_statistics.players_created = self
                    .game_statistics
                    .players_created
                    .saturating_add(1);
                proof {
                    assert(self.players@.drop_last() =~= fifo_tail(
                        old(self).players@,
                        PLAYERS_MAX_COUNT as int,
                    ));
                }
                let ghost mid = *self;
                let r = self.create_game(player_name);
                proof {
                    assert(GameManager::registered_player_rel(*old(self), mid, player_name@));
                }
                r
            },
        }
    }

    /// What a player move does. Failures leave the registry untouched: an
    /// unknown name, a dead game link, coordinates off the grid, a decided
    /// game, or a taken cell each report their own error. Otherwise the
    /// player's tile is placed, the application answers at once (seeded from
    /// the games-created counter and the move), the moves counter is bumped,
    /// and the response reports the application's coordinates — or the
    /// sentinel if the game ended — with the new outcome.
    pub open spec fn make_move_post(
        pre: GameManager,
        post: GameManager,
        name: Seq<char>,
        coords: (usize, usize),
        r: Result<Response, Error>,
    ) -> bool {
        match pre.find_player(name) {
            None => r == Err::<Response, Error>(Error::PlayerNotFound) && GameManager::unchanged(pre, post),
            Some(p) => match pre.player_game(p) {
                None => r == Err::<Response, Error>(Error::NoActiveGame) && GameManager::unchanged(pre, post),
                Some(g) => {
                    if !(coords.0 <= 2 && coords.1 <= 2) {
                        r == Err::<Response, Error>(Error::InvalidCoordinates) && GameManager::unchanged(pre, post)
                    } else {
                        let mv = (GameMove { x: coords.0, y: coords.1 });
                        let game = pre.games@[g];
                        if winner_of(game.board@) is Some {
                            r == Err::<Response, Error>(Error::GameAlreadyOver) && GameManager::unchanged(pre, post)
                        } else if game.board@[cell_index(mv)] is Some {
                            r == Err::<Response, Error>(Error::CellOccupied) && GameManager::unchanged(pre, post)
                        } else {
                            let placed = game.board@.update(
                                cell_index(mv),
                                Some(game.player_tile),
                            );
                            let e = move_entropy(mv, pre.game_statistics.games_created);
                            let newb = app_move_board(placed, game.player_tile, e);
                            let app = app_move_result(placed, e);
                            &&& post.players@ == pre.players@
                            &&& post.games@.len() == pre.games@.len()
                            &&& forall|j: int|
                                0 <= j < pre.games@.len() && j != g ==> post.games@[j]
                                    == pre.games@[j]
                            &&& post.games@[g].player_tile == game.player_tile
                            &&& post.games@[g].board@ == newb
                            &&& post.game_statistics == (GameStatistics {
                                players_created: pre.game_statistics.players_created,
                                games_created: pre.game_statistics.games_created,
                                moves_count: bump(pre.game_statistics.moves_count),
                            })
                            &&& match r {
                                Ok(resp) => match resp {
                                    Response::PlayerMove { winner, coords: rc } => winner@
                                        == winner_label(winner_of(newb)) && rc == match app {
                                        Some(m) => (m.x, m.y),
                                        None => (usize::MAX, usize::MAX),
                                    },
                                    _ => false,
                                },
                                Err(_) => false,
                            }
                        }
                    }
                },
            },
        }
    }

    /// Marks an empty position on the board with the player's tile and lets
    /// the application answer.
    pub fn make_move(&mut self, player_name: &str, coords: (usize, usize)) -> (r: Result<
        Response,
        Error,
    >)
        requires
            old(self).wf(),
        ensures
            final(self).wf(),
            GameManager::make_move_post(*old(self), *final(self), player_name@, coords, r),
    {
        let p = match self.get_player(player_name) {
            Some(p) => p,
            None => {
                return Err(Error::PlayerNotFound);
            },
        };
        proof {
            lemma_find_some(self.players@, player_name@, 0, p as int);
        }
        let g = match self.resolve_game(p) {
            Some(g) => g,
            None => {
                return Err(Error::NoActiveGame);
            },
        };
        let game_move = match GameMove::new(coords.0, coords.1) {
            Some(m) => m,
            None => {
                return Err(Error::InvalidCoordinates);
            },
        };
        let entropy = self.game_statistics.games_created;
        let game_ref = vec_index_mut(&mut self.games, g);
        let moved = game_ref.player_move(game_move, entropy);
        let app = match moved {
            Ok(app) => app,
            Err(e) => {
                proof {
                    assert(self.games@ =~= old(self).games@);
                }
                return Err(e);
            },
        };
        let winner = winner_string(vec_index(&self.games, g).get_winner());
        let rc = match app {
            Some(m) => (m.x, m.y),
            None => (usize::MAX, usize::MAX),
        };
        self.game_statistics.moves_count = self.game_statistics.moves_count.saturating_add(1);
        Ok(Response::PlayerMove { winner, coords: rc })
    }

    /// What a state query answers: the state view of the player's live game,
    /// or the same not-found and no-game failures as a move. It never mutates.
    pub open spec fn get_game_state_post(
        pre: GameManager,
        name: Seq<char>,
        r: Result<Response, Error>,
    ) -> bool {
        match pre.find_player(name) {
            None => r == Err::<Response, Error>(Error::PlayerNotFound),
            Some(p) => match pre.player_game(p) {
                None => r == Err::<Response, Error>(Error::NoActiveGame),
                Some(g) => r is Ok && is_state_response(r->Ok_0, pre.games@[g]),
            },
        }
    }

    /// Returns the current game state for the player.
    pub fn get_game_state(&self, player_name: &str) -> (r: Result<Response, Error>)
        requires
            self.wf(),
        ensures
            GameManager::get_game_state_post(*self, player_name@, r),
    {
        let p = match self.get_player(player_name) {
            Some(p) => p,
            None => {
                return Err(Error::PlayerNotFound);
            },
        };
        proof {
            lemma_find_some(self.players@, player_name@, 0, p as int);
        }
        let g = match self.resolve_game(p) {
            Some(g) => g,
            None => {
                return Err(Error::NoActiveGame);
            },
        };
        Ok(self.serialize_game_state(vec_index(&self.games, g)))
    }

    /// Returns the usage counters. This operation never fails.
    pub fn get_statistics(&self) -> (r: Response)
        ensures
            r == (Response::Statistics {
                players_created: self.game_statistics.players_created,
                games_created: self.game_statistics.games_created,
                moves_count: self.game_statistics.moves_count,
            }),
    {
        Response::Statistics {
            players_created: self.game_statistics.players_created,
            games_created: self.game_statistics.games_created,
            moves_count: self.game_statistics.moves_count,
        }
    }
}

/// Capacity invariant: registering a fresh name when the pool is full keeps
/// the pool at capacity, drops exactly the oldest player — whose name then no
/// longer resolves — and keeps every other player, shifted by one. The fresh
/// name resolves.
pub proof fn lemma_player_eviction(pre: GameManager, mid: GameManager, name: Seq<char>)
    requires
        pre.wf(),
        pre.players@.len() == PLAYERS_MAX_COUNT,
        GameManager::registered_player_rel(pre, mid, name),
    ensures
        mid.players@.len() == PLAYERS_MAX_COUNT,
        mid.find_player(name) is Some,
        mid.find_player(pre.players@[0].name@) is None,
        forall|j: int| 1 <= j < pre.players@.len() ==> mid.players@[j - 1] == pre.players@[j],
{
    lemma_find_none(pre.players@, name, 0);
    assert(mid.players@.drop_last().len() == PLAYERS_MAX_COUNT - 1);
    assert forall|j: int| 0 <= j < mid.players@.len() - 1 implies mid.players@[j] == pre.players@[j
        + 1] by {
        assert(mid.players@.drop_last()[j] == mid.players@[j]);
        assert(fifo_tail(pre.players@, PLAYERS_MAX_COUNT as int)[j] == pre.players@[j + 1]);
    }
    let oldest = pre.players@[0].name@;
    assert(forall|j: int| 0 <= j < mid.players@.len() ==> mid.players@[j].name@ != oldest);
    lemma_not_found(mid.players@, oldest, 0);
    if mid.find_player(name) is None {
        lemma_find_none(mid.players@, name, 0);
        assert(mid.players@.last().name@ != name);
    }
}

/// Evicting a game orphans its player: a game creation that overflows the
/// pool slides the live window past the oldest game, whose sequence number no
/// longer resolves afterwards. (The games-created counter must still be below
/// its saturation point, which every reachable registry is.)
pub proof fn lemma_game_eviction(
    pre: GameManager,
    post: GameManager,
    name: Seq<char>,
    r: Result<Response, Error>,
    seq: u64,
)
    requires
        pre.wf(),
        pre.find_player(name) is Some,
        pre.games@.len() == GAMES_MAX_COUNT,
        pre.game_statistics.games_created < u64::MAX,
        GameManager::create_game_post(pre, post, name, r),
        pre.resolve_seq(seq) == Some(0int),
    ensures
        post.resolve_seq(seq) is None,
{
    assert(post.games@.drop_last().len() == post.games@.len() - 1);
    assert(fifo_tail(pre.games@, GAMES_MAX_COUNT as int).len() == GAMES_MAX_COUNT - 1);
    assert(post.games@.len() == GAMES_MAX_COUNT);
}

/// An orphaned link is the ordinary no-active-game condition: when the
/// player's game sequence number no longer resolves, a move and a state query
/// both fail with that error, and the move mutates nothing — never a fault.
pub proof fn lemma_orphaned_link(
    pre: GameManager,
    post: GameManager,
    name: Seq<char>,
    coords: (usize, usize),
    r1: Result<Response, Error>,
    r2: Result<Response, Error>,
    p: int,
)
    requires
        pre.find_player(name) == Some(p),
        pre.player_game(p) is None,
        GameManager::make_move_post(pre, post, name, coords, r1),
        GameManager::get_game_state_post(pre, name, r2),
    ensures
        r1 == Err::<Response, Error>(Error::NoActiveGame),
        r2 == Err::<Response, Error>(Error::NoActiveGame),
        GameManager::unchanged(pre, post),
{
}

} // verus!
