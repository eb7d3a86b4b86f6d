//! The typed shapes of the service boundary, and the dispatch over them.
//!
//! The transport that turns text into these values and back lives outside the
//! library; everything behind it — which operation runs, and what it answers —
//! is decided here.

use crate::error::{error_label, Error};
use crate::game::{render_board, winner_of, Game, Winner};
use crate::game_manager::GameManager;
use vstd::prelude::*;
use vstd::string::StringExecFns;

verus! {

/// A decoded request, one per operation of the registry.
pub enum Request {
    Login { player_name: String },
    PlayerMove { player_name: String, coords: (usize, usize) },
    CreateGame { player_name: String },
    GetGameState { player_name: String },
    GetStatistics,
}

/// A typed response. `PlayerMove` reports the application's answer, with
/// `(usize::MAX, usize::MAX)` as the sentinel when no further move follows.
pub enum Response {
    GameState { board: Vec<char>, player_tile: char, winner: String },
    PlayerMove { winner: String, coords: (usize, usize) },
    Statistics { players_created: u64, games_created: u64, moves_count: u64 },
    Error { error: String },
}

/// The printable form of an outcome, `"None"` while the game is open.
pub open spec fn winner_label(w: Option<Winner>) -> Seq<char> {
    match w {
        Some(Winner::X) => "X"@,
        Some(Winner::O) => "O"@,
        Some(Winner::Draw) => "Draw"@,
        None => "None"@,
    }
}

/// Renders an outcome for the wire.
pub fn winner_string(w: Option<Winner>) -> (s: String)
    ensures
        s@ == winner_label(w),
{
    match w {
        Some(Winner::X) => String::from_str("X"),
        Some(Winner::O) => String::from_str("O"),
        Some(Winner::Draw) => String::from_str("Draw"),
        None => String::from_str("None"),
    }
}

/// `resp` is the state view of game `g`: the flattened board, the player's
/// tile and the current outcome.
pub open spec fn is_state_response(resp: Response, g: Game) -> bool {
    match resp {
        Response::GameState { board, player_tile, winner } => board@ == render_board(g.board@)
            && player_tile == g.player_tile.spec_char() && winner@ == winner_label(
            winner_of(g.board@),
        ),
        _ => false,
    }
}

/// `resp` carries a successful result through, or renders the failure as the
/// wire's error message.
pub open spec fn wraps_result(resp: Response, r: Result<Response, Error>) -> bool {
    match r {
        Ok(inner) => resp == inner,
        Err(e) => match resp {
            Response::Error { error } => error@ == error_label(e),
            _ => false,
        },
    }
}

/// Wraps an operation's result for the wire.
fn wrap_result(r: Result<Response, Error>) -> (resp: Response)
    ensures
        wraps_result(resp, r),
{
    match r {
        Ok(inner) => inner,
        Err(e) => Response::Error { error: e.message() },
    }
}

/// What the dispatch answers for each request: the matching operation ran,
/// and its result — success or rendered failure — is the response.
pub open spec fn do_request_post(
    pre: GameManager,
    post: GameManager,
    request: Request,
    resp: Response,
) -> bool {
    match request {
        Request::Login { player_name } => exists|r: Result<Response, Error>|
            #[trigger] GameManager::login_post(pre, post, player_name@, r) && wraps_result(
                resp,
                r,
            ),
        Request::PlayerMove { player_name, coords } => exists|r: Result<Response, Error>|
            #[trigger] GameManager::make_move_post(pre, post, player_name@, coords, r)
                && wraps_result(resp, r),
        Request::CreateGame { player_name } => exists|r: Result<Response, Error>|
            #[trigger] GameManager::create_game_post(pre, post, player_name@, r) && wraps_result(
                resp,
                r,
            ),
        Request::GetGameState { player_name } => GameManager::unchanged(pre, post) && exists|
            r: Result<Response, Error>,
        |
            #[trigger] GameManager::get_game_state_post(pre, player_name@, r) && wraps_result(
                resp,
                r,
            ),
        Request::GetStatistics => GameManager::unchanged(pre, post) && resp
            == (Response::Statistics {
            players_created: pre.game_statistics.players_created,
            games_created: pre.game_statistics.games_created,
            moves_count: pre.game_statistics.moves_count,
        }),
    }
}

/// Runs one decoded request against the registry and produces the response
/// that goes back over the wire.
pub fn do_request(gm: &mut GameManager, request: Request) -> (resp: Response)
    requires
        old(gm).wf(),
    ensures
        final(gm).wf(),
        do_request_post(*old(gm), *final(gm), request, resp),
{
    match request {
        Request::Login { player_name } => {
            let r = gm.login(player_name.as_str());
            wrap_result(r)
        },
        Request::PlayerMove { player_name, coords } => {
            let r = gm.make_move(player_name.as_str(), coords);
            wrap_result(r)
        },
        Request::CreateGame { player_name } => {
            let r = gm.create_game(player_name.as_str());
            wrap_result(r)
        },
        Request::GetGameState { player_name } => {
            let r = gm.get_game_state(player_name.as_str());
            wrap_result(r)
        },
        Request::GetStatistics => gm.get_statistics(),
    }
}

/// The usage counters never decrease, whatever request runs: they count
/// creation events for the life of the registry, not the current population.
pub proof fn lemma_counters_monotonic(
    pre: GameManager,
    post: GameManager,
    request: Request,
    resp: Response,
)
    requires
        do_request_post(pre, post, request, resp),
    ensures
        post.game_statistics.players_created >= pre.game_statistics.players_created,
        post.game_statistics.games_created >= pre.game_statistics.games_created,
        post.game_statistics.moves_count >= pre.game_statistics.moves_count,
{
    match request {
        Request::Login { player_name } => {
            let r = choose|r: Result<Response, Error>|
                #[trigger] GameManager::login_post(pre, post, player_name@, r) && wraps_result(
                    resp,
                    r,
                );
            if !crate::game_manager::name_too_long(player_name@) && pre.find_player(
                player_name@,
            ) is None {
                let mid = choose|mid: GameManager|
                    #[trigger] GameManager::registered_player_rel(pre, mid, player_name@)
                        && GameManager::create_game_post(mid, post, player_name@, r);
                assert(mid.game_statistics.players_created
                    >= pre.game_statistics.players_created);
            }
        },
        Request::PlayerMove { player_name, coords } => {
            let r = choose|r: Result<Response, Error>|
                #[trigger] GameManager::make_move_post(pre, post, player_name@, coords, r)
                    && wraps_result(resp, r);
        },
        Request::CreateGame { player_name } => {
            let r = choose|r: Result<Response, Error>|
                #[trigger] GameManager::create_game_post(pre, post, player_name@, r)
                    && wraps_result(resp, r);
        },
        Request::GetGameState { player_name } => {},
        Request::GetStatistics => {},
    }
}

} // verus!
