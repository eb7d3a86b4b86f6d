//! The board engine: pure game-state logic for the 3x3 grid.
//!
//! A board is a row-major sequence of nine cells. The engine validates moves,
//! detects wins and draws, and picks the application's answer to a player
//! move by a deterministic draw over the empty cells.

use crate::error::Error;
use crate::rng::{draw_index, isaac_index};
use vstd::prelude::*;
use vstd::wrapping::u64_specs;

verus! {

/// One of the two markers a cell can hold.
#[derive(Debug, Copy, Clone, Eq, PartialEq, Structural)]
pub enum Tile {
    X,
    O,
}

impl Tile {
    /// The printable form of the tile.
    pub open spec fn spec_char(self) -> char {
        match self {
            Tile::X => 'X',
            Tile::O => 'O',
        }
    }

    /// The tile of the opposite player.
    pub open spec fn spec_other(self) -> Tile {
        match self {
            Tile::X => Tile::O,
            Tile::O => Tile::X,
        }
    }

    pub fn to_char(self) -> (c: char)
        ensures
            c == self.spec_char(),
    {
        match self {
            Tile::X => 'X',
            Tile::O => 'O',
        }
    }

    /// Returns the tile type of the opposite player.
    pub fn other(self) -> (t: Tile)
        ensures
            t == self.spec_other(),
    {
        match self {
            Tile::X => Tile::O,
            Tile::O => Tile::X,
        }
    }
}

/// The terminal result of a game: a win for one tile, or a draw.
#[derive(Debug, Copy, Clone, Eq, PartialEq, Structural)]
pub enum Winner {
    X,
    O,
    Draw,
}

/// The winner value that a win of `t` yields.
pub open spec fn tile_winner(t: Tile) -> Winner {
    match t {
        Tile::X => Winner::X,
        Tile::O => Winner::O,
    }
}

impl From<Tile> for Winner {
    fn from(tile: Tile) -> (w: Winner) {
        match tile {
            Tile::X => Winner::X,
            Tile::O => Winner::O,
        }
    }
}

impl vstd::std_specs::convert::FromSpecImpl<Tile> for Winner {
    open spec fn obeys_from_spec() -> bool {
        true
    }

    open spec fn from_spec(tile: Tile) -> Winner {
        tile_winner(tile)
    }
}

/// A validated pair of board coordinates, each in `[0, 2]`.
#[derive(Debug, Copy, Clone, Eq, PartialEq, Structural)]
pub struct GameMove {
    pub x: usize,
    pub y: usize,
}

impl GameMove {
    /// The only way to obtain a move: succeeds exactly on coordinates inside
    /// the grid.
    pub fn new(x: usize, y: usize) -> (r: Option<GameMove>)
        ensures
            r == if x <= 2 && y <= 2 {
                Some(GameMove { x, y })
            } else {
                None::<GameMove>
            },
    {
        if x <= 2 && y <= 2 {
            Some(GameMove { x, y })
        } else {
            None
        }
    }
}

/// Every cell of the board holds a tile.
pub open spec fn board_full(b: Seq<Option<Tile>>) -> bool {
    forall|i: int| 0 <= i < 9 ==> b[i] is Some
}

/// Cells `i`, `j` and `k` hold three identical tiles.
pub open spec fn line_wins(b: Seq<Option<Tile>>, i: int, j: int, k: int) -> bool {
    b[i] is Some && b[i] == b[j] && b[j] == b[k]
}

/// The outcome the engine reports for a board, if any: the three columns are
/// scanned first, then the three rows, then the main diagonal, then the anti
/// diagonal; a full board without a line is a draw.
pub open spec fn winner_of(b: Seq<Option<Tile>>) -> Option<Winner> {
    if line_wins(b, 0, 3, 6) {
        Some(tile_winner(b[0]->Some_0))
    } else if line_wins(b, 1, 4, 7) {
        Some(tile_winner(b[1]->Some_0))
    } else if line_wins(b, 2, 5, 8) {
        Some(tile_winner(b[2]->Some_0))
    } else if line_wins(b, 0, 1, 2) {
        Some(tile_winner(b[0]->Some_0))
    } else if line_wins(b, 3, 4, 5) {
        Some(tile_winner(b[3]->Some_0))
    } else if line_wins(b, 6, 7, 8) {
        Some(tile_winner(b[6]->Some_0))
    } else if line_wins(b, 0, 4, 8) {
        Some(tile_winner(b[0]->Some_0))
    } else if line_wins(b, 2, 4, 6) {
        Some(tile_winner(b[2]->Some_0))
    } else if board_full(b) {
        Some(Winner::Draw)
    } else {
        None::<Winner>
    }
}

/// Some triple of cells — a column, a row or a diagonal — holds three
/// identical tiles.
pub open spec fn has_line(b: Seq<Option<Tile>>) -> bool {
    ||| line_wins(b, 0, 3, 6)
    ||| line_wins(b, 1, 4, 7)
    ||| line_wins(b, 2, 5, 8)
    ||| line_wins(b, 0, 1, 2)
    ||| line_wins(b, 3, 4, 5)
    ||| line_wins(b, 6, 7, 8)
    ||| line_wins(b, 0, 4, 8)
    ||| line_wins(b, 2, 4, 6)
}

/// The outcome is a function of the board alone, so repeated winner queries
/// without a mutation in between report the same result.
pub proof fn lemma_winner_stable(g1: Game, g2: Game)
    requires
        g1.board@ == g2.board@,
    ensures
        winner_of(g1.board@) == winner_of(g2.board@),
{
}

/// At most one of the winner conditions is reported: a win exactly when some
/// line holds, a draw exactly when the board is full without a line, and
/// nothing while the game is open.
pub proof fn lemma_winner_cases(b: Seq<Option<Tile>>)
    ensures
        (winner_of(b) == Some(Winner::Draw)) <==> (board_full(b) && !has_line(b)),
        (winner_of(b) is Some && winner_of(b) != Some(Winner::Draw)) <==> has_line(b),
        (winner_of(b) is None) <==> (!has_line(b) && !board_full(b)),
{
}

/// Determinism of a full turn: from equal boards with equal assigned tiles,
/// the same move and the same entropy value lead to equal boards, equal
/// reported answers and equal outcomes. Together with `Game::new`, a whole
/// game replays identically for a fixed tile, entropy sequence and move
/// sequence.
pub proof fn lemma_turn_deterministic(g1: Game, g2: Game, mv: GameMove, entropy: u64)
    requires
        g1.player_tile == g2.player_tile,
        g1.board@ == g2.board@,
    ensures
        ({
            let placed1 = g1.board@.update(cell_index(mv), Some(g1.player_tile));
            let placed2 = g2.board@.update(cell_index(mv), Some(g2.player_tile));
            &&& winner_of(g1.board@) == winner_of(g2.board@)
            &&& app_move_board(placed1, g1.player_tile, move_entropy(mv, entropy))
                == app_move_board(placed2, g2.player_tile, move_entropy(mv, entropy))
            &&& app_move_result(placed1, move_entropy(mv, entropy)) == app_move_result(
                placed2,
                move_entropy(mv, entropy),
            )
        }),
{
}

/// A board without an empty cell is never open: the engine reports a line
/// win or a draw for it. This is why a turn that gets no answer from the
/// application always has a decided outcome to report.
pub proof fn lemma_no_empties_is_decided(b: Seq<Option<Tile>>)
    requires
        b.len() == 9,
        empties_of(b).len() == 0,
    ensures
        winner_of(b) is Some,
{
    assert forall|i: int| 0 <= i < 9 implies b[i] is Some by {
        if b[i] is None {
            lemma_empties_prefix_some(b, 9, i);
        }
    }
}

/// An empty cell below `n` appears in `empties_prefix(b, n)`.
proof fn lemma_empties_prefix_some(b: Seq<Option<Tile>>, n: int, i: int)
    requires
        0 <= i < n,
        b[i] is None,
    ensures
        empties_prefix(b, n).contains(i),
    decreases n,
{
    if i == n - 1 {
        assert(empties_prefix(b, n).last() == i);
    } else {
        lemma_empties_prefix_some(b, n - 1, i);
        assert(empties_prefix(b, n - 1).contains(i));
        let j = choose|j: int|
            0 <= j < empties_prefix(b, n - 1).len() && #[trigger] empties_prefix(b, n - 1)[j] == i;
        assert(empties_prefix(b, n)[j] == i);
    }
}

/// The printable form of one cell.
pub open spec fn render_cell(c: Option<Tile>) -> char {
    match c {
        Some(t) => t.spec_char(),
        None => '_',
    }
}

/// The row-major flattening of the board into nine printable symbols.
pub open spec fn render_board(b: Seq<Option<Tile>>) -> Seq<char> {
    b.map_values(|c: Option<Tile>| render_cell(c))
}

/// The empty board.
pub open spec fn empty_board() -> Seq<Option<Tile>> {
    Seq::new(9, |i: int| None::<Tile>)
}

/// The indices below `n` of the cells that are empty, in ascending order.
pub open spec fn empties_prefix(b: Seq<Option<Tile>>, n: int) -> Seq<int>
    decreases n,
{
    if n <= 0 {
        Seq::empty()
    } else if b[n - 1] is None {
        empties_prefix(b, n - 1).push(n - 1)
    } else {
        empties_prefix(b, n - 1)
    }
}

/// The indices of the empty cells, in row-major scan order.
pub open spec fn empties_of(b: Seq<Option<Tile>>) -> Seq<int> {
    empties_prefix(b, 9)
}

/// Every index in `empties_prefix(b, n)` lies in `[0, n)`.
pub proof fn lemma_empties_prefix_bounds(b: Seq<Option<Tile>>, n: int)
    ensures
        forall|j: int|
            0 <= j < empties_prefix(b, n).len() ==> 0 <= #[trigger] empties_prefix(b, n)[j] < n,
    decreases n,
{
    if n > 0 {
        lemma_empties_prefix_bounds(b, n - 1);
        assert forall|j: int|
            0 <= j < empties_prefix(b, n).len() implies 0 <= #[trigger] empties_prefix(b, n)[j]
            < n by {
            if b[n - 1] is None {
                if j < empties_prefix(b, n - 1).len() {
                    assert(empties_prefix(b, n)[j] == empties_prefix(b, n - 1)[j]);
                } else {
                    assert(empties_prefix(b, n)[j] == n - 1);
                }
            } else {
                assert(empties_prefix(b, n)[j] == empties_prefix(b, n - 1)[j]);
            }
        }
    }
}

/// The seed the engine derives from a cell count and an entropy value: their
/// sum, wrapping at the `u64` boundary.
pub open spec fn derived_seed(count: int, entropy: u64) -> u64 {
    u64_specs::wrapping_add(count as u64, entropy)
}

/// The entropy a player move contributes to the application's answer: the
/// move's coordinate sum perturbs the external entropy value.
pub open spec fn move_entropy(mv: GameMove, entropy: u64) -> u64 {
    u64_specs::wrapping_add((mv.x + mv.y) as u64, entropy)
}

/// The row-major index of the cell a move addresses.
pub open spec fn cell_index(mv: GameMove) -> int {
    3 * mv.x + mv.y
}

/// The application answers only while the game is open and a cell is free.
pub open spec fn app_can_move(b: Seq<Option<Tile>>) -> bool {
    winner_of(b) is None && empties_of(b).len() > 0
}

/// The cell the application picks: a fresh generator is seeded from the
/// empty-cell count and the entropy, and draws an index into the empty cells.
pub open spec fn app_choice(b: Seq<Option<Tile>>, entropy: u64) -> int {
    empties_of(b)[isaac_index(
        derived_seed(empties_of(b).len() as int, entropy),
        empties_of(b).len() as usize,
    ) as int]
}

/// The board after the application's answer: the picked cell is filled with
/// the application's tile, or nothing changes if no answer is due.
pub open spec fn app_move_board(b: Seq<Option<Tile>>, player_tile: Tile, entropy: u64) -> Seq<
    Option<Tile>,
> {
    if app_can_move(b) {
        b.update(app_choice(b, entropy), Some(player_tile.spec_other()))
    } else {
        b
    }
}

/// The coordinates the application reports for its answer, if one is due.
pub open spec fn app_move_result(b: Seq<Option<Tile>>, entropy: u64) -> Option<GameMove> {
    if app_can_move(b) {
        Some((GameMove { x: (app_choice(b, entropy) / 3) as usize, y: (app_choice(b, entropy) % 3) as usize }))
    } else {
        None::<GameMove>
    }
}

/// A game: the 3x3 grid and the tile assigned to the human player.
pub struct Game {
    pub board: Vec<Option<Tile>>,
    pub player_tile: Tile,
}

/// Writes one cell of the board.
fn board_set(b: &mut Vec<Option<Tile>>, i: usize, v: Option<Tile>)
    requires
        i < old(b)@.len(),
    ensures
        final(b)@ == old(b)@.update(i as int, v),
{
    let slot = vstd::std_specs::vec::vec_index_mut(b, i);
    *slot = v;
}

impl Game {
    /// The board always holds exactly nine cells.
    pub open spec fn wf(self) -> bool {
        self.board@.len() == 9
    }

    /// A fresh game: an empty grid for the given player tile.
    pub fn new(player_tile: Tile) -> (g: Game)
        ensures
            g.wf(),
            g.player_tile == player_tile,
            g.board@ == empty_board(),
    {
        let mut board: Vec<Option<Tile>> = Vec::new();
        let mut i: usize = 0;
        while i < 9
            invariant
                i <= 9,
                board@.len() == i as int,
                forall|j: int| 0 <= j < i ==> board@[j] is None,
            decreases 9 - i,
        {
            board.push(None);
            i += 1;
        }
        proof {
            assert(board@ =~= empty_board());
        }
        Game { board, player_tile }
    }

    /// Reports whether one triple of cells is a winning line.
    fn line(&self, i: usize, j: usize, k: usize) -> (r: Option<Winner>)
        requires
            self.wf(),
            i < 9,
            j < 9,
            k < 9,
        ensures
            r == if line_wins(self.board@, i as int, j as int, k as int) {
                Some(tile_winner(self.board@[i as int]->Some_0))
            } else {
                None::<Winner>
            },
    {
        match (self.board[i], self.board[j], self.board[k]) {
            (Some(a), Some(b), Some(c)) => {
                if a == b && b == c {
                    Some(Winner::from(a))
                } else {
                    None
                }
            },
            _ => None,
        }
    }

    /// Returns `Some(winner)` if there is one and `None` otherwise. The result
    /// is a function of the board alone, so repeated calls without a mutation
    /// in between report the same outcome.
    pub fn get_winner(&self) -> (r: Option<Winner>)
        requires
            self.wf(),
        ensures
            r == winner_of(self.board@),
    {
        if let Some(w) = self.line(0, 3, 6) {
            return Some(w);
        }
        if let Some(w) = self.line(1, 4, 7) {
            return Some(w);
        }
        if let Some(w) = self.line(2, 5, 8) {
            return Some(w);
        }
        if let Some(w) = self.line(0, 1, 2) {
            return Some(w);
        }
        if let Some(w) = self.line(3, 4, 5) {
            return Some(w);
        }
        if let Some(w) = self.line(6, 7, 8) {
            return Some(w);
        }
        if let Some(w) = self.line(0, 4, 8) {
            return Some(w);
        }
        if let Some(w) = self.line(2, 4, 6) {
            return Some(w);
        }
        let mut i: usize = 0;
        let mut full: bool = true;
        while i < 9
            invariant
                self.wf(),
                i <= 9,
                full == (forall|j: int| 0 <= j < i ==> self.board@[j] is Some),
            decreases 9 - i,
        {
            if self.board[i].is_none() {
                full = false;
            }
            i += 1;
        }
        if full {
            Some(Winner::Draw)
        } else {
            None
        }
    }

    /// Returns the current game state: the player's tile and the row-major
    /// flattening of the grid into nine printable symbols.
    pub fn get_state(&self) -> (r: (Tile, Vec<char>))
        requires
            self.wf(),
        ensures
            r.0 == self.player_tile,
            r.1@ == render_board(self.board@),
    {
        let mut board: Vec<char> = Vec::new();
        let mut i: usize = 0;
        while i < 9
            invariant
                self.wf(),
                i <= 9,
                board@.len() == i as int,
                forall|j: int| 0 <= j < i ==> board@[j] == render_cell(self.board@[j]),
            decreases 9 - i,
        {
            match self.board[i] {
                Some(tile) => board.push(tile.to_char()),
                None => board.push('_'),
            }
            i += 1;
        }
        proof {
            assert(board@ =~= render_board(self.board@));
        }
        (self.player_tile, board)
    }

    /// Makes the application's move: if the game is open, a fresh generator
    /// seeded from the empty-cell count and `entropy` picks one empty cell in
    /// row-major scan order, which then receives the application's tile.
    /// Returns the chosen coordinates, or `None` if the game is already over.
    pub fn app_move(&mut self, entropy: u64) -> (r: Option<GameMove>)
        requires
            old(self).wf(),
        ensures
            final(self).wf(),
            final(self).player_tile == old(self).player_tile,
            final(self).board@ == app_move_board(old(self).board@, old(self).player_tile, entropy),
            r == app_move_result(old(self).board@, entropy),
    {
        if self.get_winner().is_some() {
            return None;
        }
        let mut empty_tiles: Vec<usize> = Vec::new();
        let mut i: usize = 0;
        while i < 9
            invariant
                self.wf(),
                i <= 9,
                empty_tiles@.len() == empties_prefix(self.board@, i as int).len(),
                forall|j: int|
                    0 <= j < empty_tiles@.len() ==> empty_tiles@[j] as int == empties_prefix(
                        self.board@,
                        i as int,
                    )[j],
            decreases 9 - i,
        {
            if self.board[i].is_none() {
                empty_tiles.push(i);
            }
            i += 1;
        }
        if empty_tiles.len() == 0 {
            return None;
        }
        let seed = (empty_tiles.len() as u64).wrapping_add(entropy);
        let k = draw_index(seed, empty_tiles.len());
        let cell = empty_tiles[k];
        proof {
            lemma_empties_prefix_bounds(self.board@, 9);
            assert(cell as int == app_choice(self.board@, entropy));
            assert(cell < 9);
        }
        let tile = self.player_tile.other();
        board_set(&mut self.board, cell, Some(tile));
        Some(GameMove { x: cell / 3, y: cell % 3 })
    }

    /// Makes the player's move and the application's answer in turn. Fails if
    /// the game is already decided or the cell is taken; otherwise the
    /// player's tile is placed and the application answers at once, seeded
    /// from the move's coordinates and `entropy`. `Ok(None)` means the
    /// player's own move ended the game.
    pub fn player_move(&mut self, game_move: GameMove, entropy: u64) -> (r: Result<
        Option<GameMove>,
        Error,
    >)
        requires
            old(self).wf(),
            game_move.x <= 2,
            game_move.y <= 2,
        ensures
            final(self).wf(),
            final(self).player_tile == old(self).player_tile,
            match r {
                Err(Error::GameAlreadyOver) => winner_of(old(self).board@) is Some && *final(self)
                    == *old(self),
                Err(Error::CellOccupied) => winner_of(old(self).board@) is None && old(
                    self,
                ).board@[cell_index(game_move)] is Some && *final(self) == *old(self),
                Ok(app) => ({
                    let placed = old(self).board@.update(
                        cell_index(game_move),
                        Some(old(self).player_tile),
                    );
                    &&& winner_of(old(self).board@) is None
                    &&& old(self).board@[cell_index(game_move)] is None
                    &&& final(self).board@ == app_move_board(
                        placed,
                        old(self).player_tile,
                        move_entropy(game_move, entropy),
                    )
                    &&& app == app_move_result(placed, move_entropy(game_move, entropy))
                }),
                _ => false,
            },
    {
        if self.get_winner().is_some() {
            return Err(Error::GameAlreadyOver);
        }
        let idx = 3 * game_move.x + game_move.y;
        if self.board[idx].is_some() {
            return Err(Error::CellOccupied);
        }
        let tile = self.player_tile;
        board_set(&mut self.board, idx, Some(tile));
        let e = ((game_move.x + game_move.y) as u64).wrapping_add(entropy);
        Ok(self.app_move(e))
    }
}

} // verus!
