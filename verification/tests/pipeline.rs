use tic_tac_toe::game_manager::GameManager;
use tic_tac_toe::request_response::{do_request, Request, Response};

/// Renders a response the way the service writes it on the wire: compact
/// JSON with the keys in alphabetical order.
fn render(resp: &Response) -> String {
    match resp {
        Response::GameState { board, player_tile, winner } => {
            let cells: Vec<String> = board.iter().map(|c| format!("\"{}\"", c)).collect();
            format!(
                "{{\"board\":[{}],\"player_tile\":\"{}\",\"winner\":\"{}\"}}",
                cells.join(","),
                player_tile,
                winner
            )
        },
        Response::PlayerMove { winner, coords } => {
            format!("{{\"coords\":[{},{}],\"winner\":\"{}\"}}", coords.0, coords.1, winner)
        },
        Response::Statistics { players_created, games_created, moves_count } => {
            format!(
                "{{\"games_created\":{},\"moves_count\":{},\"players_created\":{}}}",
                games_created, moves_count, players_created
            )
        },
        Response::Error { error } => format!("{{\"error\":\"{}\"}}", error),
    }
}

fn login(gm: &mut GameManager, player_name: &str) -> String {
    render(&do_request(gm, Request::Login { player_name: player_name.to_owned() }))
}

fn player_move(gm: &mut GameManager, player_name: &str, x: usize, y: usize) -> String {
    render(&do_request(
        gm,
        Request::PlayerMove { player_name: player_name.to_owned(), coords: (x, y) },
    ))
}

#[test]
fn x_tile_win() {
    let mut gm = GameManager::new();

    assert_eq!(
        login(&mut gm, "John"),
        "{\"board\":[\"_\",\"_\",\"_\",\"_\",\"X\",\"_\",\"_\",\"_\",\"_\"],\"player_tile\":\"O\",\"winner\":\"None\"}".to_owned()
    );

    assert_eq!(
        player_move(&mut gm, "John", 2, 2),
        "{\"coords\":[0,2],\"winner\":\"None\"}".to_owned()
    );

    assert_eq!(
        player_move(&mut gm, "John", 1, 2),
        "{\"coords\":[2,1],\"winner\":\"None\"}".to_owned()
    );

    assert_eq!(
        login(&mut gm, "John"),
        "{\"board\":[\"_\",\"_\",\"X\",\"_\",\"X\",\"O\",\"_\",\"X\",\"O\"],\"player_tile\":\"O\",\"winner\":\"None\"}".to_owned()
    );

    assert_eq!(
        login(&mut gm, "Peter"),
        "{\"board\":[\"_\",\"_\",\"_\",\"_\",\"_\",\"_\",\"_\",\"_\",\"_\"],\"player_tile\":\"X\",\"winner\":\"None\"}".to_owned()
    );

    assert_eq!(
        player_move(&mut gm, "Peter", 2, 2),
        "{\"coords\":[0,1],\"winner\":\"None\"}".to_owned()
    );

    assert_eq!(
        player_move(&mut gm, "Peter", 1, 2),
        "{\"coords\":[0,2],\"winner\":\"None\"}".to_owned()
    );

    assert_eq!(
        player_move(&mut gm, "Peter", 1, 1),
        "{\"coords\":[2,0],\"winner\":\"None\"}".to_owned()
    );
}

#[test]
fn statistics_over_the_wire() {
    let mut gm = GameManager::new();
    let _ = login(&mut gm, "John");
    let first = player_move(&mut gm, "John", 0, 0);
    assert!(first.starts_with("{\"coords\":["));
    assert_eq!(
        render(&do_request(&mut gm, Request::GetStatistics)),
        "{\"games_created\":1,\"moves_count\":1,\"players_created\":1}".to_owned()
    );
}

#[test]
fn errors_over_the_wire() {
    let mut gm = GameManager::new();
    let resp = do_request(
        &mut gm,
        Request::PlayerMove { player_name: "John".to_owned(), coords: (0, 0) },
    );
    assert_eq!(render(&resp), "{\"error\":\"player with this name wasn't found\"}".to_owned());
    let _ = login(&mut gm, "John");
    let resp = do_request(
        &mut gm,
        Request::GetGameState { player_name: "Paul".to_owned() },
    );
    assert_eq!(render(&resp), "{\"error\":\"player with this name wasn't found\"}".to_owned());
    let resp = do_request(
        &mut gm,
        Request::PlayerMove { player_name: "John".to_owned(), coords: (9, 9) },
    );
    assert_eq!(render(&resp), "{\"error\":\"invalid coordinates\"}".to_owned());
}

#[test]
fn create_game_over_the_wire() {
    let mut gm = GameManager::new();
    let _ = login(&mut gm, "John");
    let resp = do_request(&mut gm, Request::CreateGame { player_name: "John".to_owned() });
    match &resp {
        Response::GameState { board, winner, .. } => {
            assert_eq!(board.len(), 9);
            assert_eq!(winner, "None");
        },
        _ => panic!("expected a game state"),
    }
    let state = do_request(&mut gm, Request::GetGameState { player_name: "John".to_owned() });
    assert_eq!(render(&state), render(&resp));
}
