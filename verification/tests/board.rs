use tic_tac_toe::error::Error;
use tic_tac_toe::game::{Game, GameMove, Tile, Winner};

fn board_of(cells: [char; 9]) -> Vec<Option<Tile>> {
    cells
        .iter()
        .map(|c| match c {
            'X' => Some(Tile::X),
            'O' => Some(Tile::O),
            _ => None,
        })
        .collect()
}

fn game_with(cells: [char; 9], player_tile: Tile) -> Game {
    Game { board: board_of(cells), player_tile }
}

fn play(tile: Tile, turns: &[((usize, usize), u64)]) -> (Game, Vec<Result<Option<GameMove>, Error>>) {
    let mut g = Game::new(tile);
    let mut results = Vec::new();
    for ((x, y), e) in turns {
        let mv = GameMove::new(*x, *y).expect("coordinates in range");
        results.push(g.player_move(mv, *e));
    }
    (g, results)
}

#[test]
fn tile_symbols_and_opposites() {
    assert_eq!(Tile::X.to_char(), 'X');
    assert_eq!(Tile::O.to_char(), 'O');
    assert_eq!(Tile::X.other(), Tile::O);
    assert_eq!(Tile::O.other(), Tile::X);
    assert_eq!(Winner::from(Tile::X), Winner::X);
    assert_eq!(Winner::from(Tile::O), Winner::O);
}

#[test]
fn move_validation() {
    for x in 0..3usize {
        for y in 0..3usize {
            let m = GameMove::new(x, y).expect("in-range coordinates build a move");
            assert_eq!((m.x, m.y), (x, y));
        }
    }
    assert!(GameMove::new(3, 0).is_none());
    assert!(GameMove::new(0, 3).is_none());
    assert!(GameMove::new(9, 9).is_none());
    assert!(GameMove::new(usize::MAX, 1).is_none());
}

#[test]
fn winner_in_each_direction() {
    let col = game_with(['X', '_', 'O', 'X', 'O', '_', 'X', '_', '_'], Tile::X);
    assert_eq!(col.get_winner(), Some(Winner::X));
    let row = game_with(['_', '_', 'X', 'O', 'O', 'O', 'X', '_', '_'], Tile::O);
    assert_eq!(row.get_winner(), Some(Winner::O));
    let diag = game_with(['X', 'O', '_', 'O', 'X', '_', '_', '_', 'X'], Tile::X);
    assert_eq!(diag.get_winner(), Some(Winner::X));
    let anti = game_with(['X', 'X', 'O', '_', 'O', '_', 'O', '_', '_'], Tile::X);
    assert_eq!(anti.get_winner(), Some(Winner::O));
}

#[test]
fn winner_draw_and_open_board() {
    let draw = game_with(['X', 'O', 'X', 'X', 'O', 'O', 'O', 'X', 'X'], Tile::X);
    assert_eq!(draw.get_winner(), Some(Winner::Draw));
    let open = game_with(['X', 'O', 'X', '_', 'O', 'O', 'O', 'X', 'X'], Tile::X);
    assert_eq!(open.get_winner(), None);
    let empty = Game::new(Tile::X);
    assert_eq!(empty.get_winner(), None);
}

#[test]
fn winner_is_stable() {
    let g = game_with(['X', 'O', '_', 'O', 'X', '_', '_', '_', 'X'], Tile::O);
    let first = g.get_winner();
    assert_eq!(first, Some(Winner::X));
    assert_eq!(g.get_winner(), first);
    assert_eq!(g.get_winner(), first);
}

#[test]
fn state_flattens_row_major() {
    let g = game_with(['_', '_', 'X', '_', 'X', 'O', '_', 'X', 'O'], Tile::O);
    let (tile, board) = g.get_state();
    assert_eq!(tile, Tile::O);
    assert_eq!(board, vec!['_', '_', 'X', '_', 'X', 'O', '_', 'X', 'O']);
    let (_, fresh) = Game::new(Tile::X).get_state();
    assert_eq!(fresh, vec!['_'; 9]);
}

#[test]
fn games_replay_identically() {
    let turns = [((0, 0), 17u64), ((1, 1), 99u64), ((2, 0), 3u64)];
    let (mut g1, r1) = play(Tile::X, &turns);
    let (mut g2, r2) = play(Tile::X, &turns);
    assert_eq!(r1, r2);
    assert_eq!(g1.get_state(), g2.get_state());
    assert_eq!(g1.get_winner(), g2.get_winner());
    // the same holds for a bare application move
    assert_eq!(g1.app_move(123), g2.app_move(123));
    assert_eq!(g1.get_state(), g2.get_state());
}

#[test]
fn occupied_cell_is_rejected_and_board_kept() {
    let mut g = Game::new(Tile::X);
    let first = g.player_move(GameMove::new(1, 1).unwrap(), 0);
    let app = match first {
        Ok(Some(m)) => m,
        other => panic!("expected an application answer, got {:?}", other),
    };
    let before = g.get_state();
    // a cell taken by the player's own tile
    assert_eq!(g.player_move(GameMove::new(1, 1).unwrap(), 5), Err(Error::CellOccupied));
    assert_eq!(g.get_state(), before);
    // a cell taken by the application's tile
    assert_eq!(g.player_move(GameMove::new(app.x, app.y).unwrap(), 5), Err(Error::CellOccupied));
    assert_eq!(g.get_state(), before);
}

#[test]
fn app_answers_nothing_once_decided() {
    let mut won = game_with(['X', '_', 'O', 'X', 'O', '_', 'X', '_', '_'], Tile::X);
    assert_eq!(won.app_move(42), None);
    let mut full = game_with(['X', 'O', 'X', 'X', 'O', 'O', 'O', 'X', 'X'], Tile::O);
    assert_eq!(full.app_move(42), None);
}

#[test]
fn human_three_in_a_row_wins() {
    // Steer the application away from column 0 by searching entropy values;
    // every candidate is replayed from scratch, which determinism makes exact.
    let targets = [(0usize, 0usize), (1, 0), (2, 0)];
    let mut chosen: Vec<((usize, usize), u64)> = Vec::new();
    for i in 0..2usize {
        let mut found = false;
        for e in 0..200u64 {
            let mut trial = chosen.clone();
            trial.push((targets[i], e));
            let (g, results) = play(Tile::X, &trial);
            if let Ok(Some(m)) = results.last().unwrap() {
                let blocks = targets[i + 1..].iter().any(|t| *t == (m.x, m.y));
                if !blocks && g.get_winner().is_none() {
                    chosen = trial;
                    found = true;
                    break;
                }
            }
        }
        assert!(found, "no entropy value kept column 0 free");
    }
    chosen.push((targets[2], 7));
    let (mut g, results) = play(Tile::X, &chosen);
    // the winning move gets no application answer back
    assert_eq!(*results.last().unwrap(), Ok(None));
    assert_eq!(g.get_winner(), Some(Winner::X));
    // and any further move is refused
    let free = g
        .get_state()
        .1
        .iter()
        .position(|c| *c == '_')
        .expect("a cell is still free after five stones");
    let mv = GameMove::new(free / 3, free % 3).unwrap();
    assert_eq!(g.player_move(mv, 0), Err(Error::GameAlreadyOver));
}
