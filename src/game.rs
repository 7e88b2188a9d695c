use vstd::prelude::*;

use crate::board::{Board, BoardStatus, BoardView};
pub use crate::game_interface::Tile;
use errors::{NewGameError, PutPlayerError};

pub mod errors;
pub mod game;

verus! {

/// Outcome of a board on which players are placed explicitly.
#[derive(Clone, Copy, Debug, PartialEq, Eq, Structural)]
pub enum GameState {
    Winner(usize),
    InProgress,
    Draw,
}

/// The first rule that `Game::new` finds broken: dimensions, then player
/// count, then a win length that is zero or longer than both sides.
pub open spec fn new_error(width: int, height: int, win_length: int, players: int) -> Option<NewGameError> {
    if width == 0 || height == 0 {
        Some(NewGameError::InvalidDimensions)
    } else if players < 2 {
        Some(NewGameError::NotEnoughPlayers)
    } else if win_length == 0 || (win_length > height && win_length > width) {
        Some(NewGameError::ImpossibleWinLength)
    } else {
        None
    }
}

/// The board after `player` is put on `(x, y)`, or why that is refused.
pub open spec fn put_result(v: BoardView, players: int, x: int, y: int, player: int) -> Result<
    BoardView,
    PutPlayerError,
> {
    if player >= players {
        Err(PutPlayerError::PlayerOutOfRange)
    } else if !v.in_bounds(x, y) {
        Err(PutPlayerError::IndexOutOfBounds)
    } else if v.cell(x, y) != Tile::Empty {
        Err(PutPlayerError::PositionNotEmpty)
    } else {
        Ok(BoardView { cells: v.cells.update(y * v.width + x, Tile::Player(player as usize)), ..v })
    }
}

/// A board on which the caller names the player of each placement.
pub struct Game {
    board: Board,
    players: usize,
}

impl Game {
    pub closed spec fn board_view(&self) -> BoardView {
        self.board@
    }

    pub closed spec fn player_count(&self) -> int {
        self.players as int
    }

    pub open spec fn wf(&self) -> bool {
        self.board_view().wf() && self.player_count() >= 2
    }

    /// An empty board, or the first rule of `new_error` that the configuration breaks.
    pub fn new(width: usize, height: usize, win_length: usize, players: usize) -> (r: Result<
        Game,
        NewGameError,
    >)
        requires
            width * height <= usize::MAX,
        ensures
            match new_error(width as int, height as int, win_length as int, players as int) {
                Some(e) => r == Err::<Game, NewGameError>(e),
                None => r matches Ok(g) && g.wf() && g.player_count() == players
                    && g.board_view().width == width && g.board_view().height == height
                    && g.board_view().goal == win_length
                    && forall|k: int| 0 <= k < g.board_view().cells.len()
                        ==> #[trigger] g.board_view().cells[k] == Tile::Empty,
            },
    {
        if width == 0 || height == 0 {
            return Err(NewGameError::InvalidDimensions);
        }
        if players < 2 {
            return Err(NewGameError::NotEnoughPlayers);
        }
        if win_length == 0 || (win_length > height && win_length > width) {
            return Err(NewGameError::ImpossibleWinLength);
        }
        Ok(Game { board: Board::new(width, height, win_length), players })
    }

    /// The tile at `(x, y)`, or `None` off the board.
    pub fn get(&self, x: usize, y: usize) -> (r: Option<&Tile>)
        requires
            self.wf(),
        ensures
            match r {
                Some(t) => self.board_view().in_bounds(x as int, y as int)
                    && *t == self.board_view().cell(x as int, y as int),
                None => !self.board_view().in_bounds(x as int, y as int),
            },
    {
        self.board.get(x, y)
    }

    /// Puts `player` on the empty cell `(x, y)`; refused, with nothing changed,
    /// for an unknown player, a cell off the board or an occupied cell.
    pub fn put(&mut self, x: usize, y: usize, player: usize) -> (r: Result<(), PutPlayerError>)
        requires
            old(self).wf(),
        ensures
            final(self).wf(),
            final(self).player_count() == old(self).player_count(),
            match put_result(old(self).board_view(), old(self).player_count(), x as int, y as int, player as int) {
                Ok(next) => r is Ok && final(self).board_view() == next,
                Err(e) => r == Err::<(), PutPlayerError>(e) && final(self).board_view() == old(self).board_view(),
            },
    {
        if player >= self.players {
            return Err(PutPlayerError::PlayerOutOfRange);
        }
        match self.board.get(x, y) {
            Some(tile) => match tile {
                Tile::Empty => {
                    self.board.set(x, y, Tile::Player(player));
                    Ok(())
                },
                Tile::Player(_) => Err(PutPlayerError::PositionNotEmpty),
            },
            None => Err(PutPlayerError::IndexOutOfBounds),
        }
    }

    /// The player of the first winning line in row-major order; otherwise
    /// `InProgress` while a cell is empty, else `Draw`.
    pub fn winner(&self) -> (r: GameState)
        requires
            self.wf(),
        ensures
            match r {
                GameState::Winner(p) => self.board_view().status_ok(BoardStatus::Won(p)),
                GameState::InProgress => self.board_view().status_ok(BoardStatus::Open),
                GameState::Draw => self.board_view().status_ok(BoardStatus::Full),
            },
    {
        match self.board.status() {
            BoardStatus::Won(p) => GameState::Winner(p),
            BoardStatus::Open => GameState::InProgress,
            BoardStatus::Full => GameState::Draw,
        }
    }
}

} // verus!
