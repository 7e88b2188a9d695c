use vstd::prelude::*;

use crate::board::{Board, BoardView};
use crate::core_game::{create_error, fresh_view};
use crate::game_interface::{GameView, PlayMoveError};
pub use crate::game_interface::Tile;
use super::errors::{CreateGameError, PlaceMoveError};

verus! {

/// The error of the turn-based game for a refused move.
pub open spec fn place_error(e: PlayMoveError) -> PlaceMoveError {
    match e {
        PlayMoveError::IndexOutOfBounds => PlaceMoveError::PositionOutOfRange,
        PlayMoveError::TileNotEmpty => PlaceMoveError::TileNotEmpty,
    }
}

/// The error of the turn-based game for a refused configuration: the same rules,
/// in the same order, as `core_game::create_error`.
pub open spec fn config_error(width: int, height: int, goal: int, players: int) -> Option<CreateGameError> {
    match create_error(width, height, goal, players) {
        Some(crate::core_game::CreateGameError::InvalidDimensions) => Some(CreateGameError::DimensionTooSmall),
        Some(crate::core_game::CreateGameError::NotEnoughPlayers) => Some(CreateGameError::TooFewPlayers),
        Some(crate::core_game::CreateGameError::GoalTooSmall) => Some(CreateGameError::GoalTooSmall),
        Some(crate::core_game::CreateGameError::GoalTooLarge) => Some(CreateGameError::GoalTooLarge),
        None => None,
    }
}

/// A turn-based game: the board, the player count and whose turn it is.
pub struct Game {
    board: Board,
    players: usize,
    turn: usize,
}

/// Reading and playing a turn-based game.
pub trait GameTrait: Sized {
    spec fn state(&self) -> GameView;

    /// The tile at `(x, y)`, or `None` off the board.
    fn get_tile(&self, x: usize, y: usize) -> (r: Option<&Tile>)
        requires
            self.state().wf(),
        ensures
            match r {
                Some(t) => self.state().board.in_bounds(x as int, y as int)
                    && *t == self.state().board.cell(x as int, y as int),
                None => !self.state().board.in_bounds(x as int, y as int),
            },
    ;

    /// The player to move.
    fn get_turn(&self) -> (r: usize)
        ensures
            r == self.state().turn,
    ;

    /// Plays `(x, y)` for the player to move.
    fn place_move(&mut self, x: usize, y: usize) -> (r: Result<(), PlaceMoveError>)
        requires
            old(self).state().wf(),
        ensures
            final(self).state().wf(),
            match old(self).state().place(x as int, y as int) {
                Ok(next) => r is Ok && final(self).state() == next,
                Err(e) => r == Err::<(), PlaceMoveError>(place_error(e))
                    && final(self).state() == old(self).state(),
            },
    ;
}

impl Game {
    pub closed spec fn view_of(&self) -> GameView {
        GameView { board: self.board@, players: self.players as int, turn: self.turn as int }
    }

    /// A new game with every cell empty and player 0 to move, without checking
    /// the configuration beyond what the board needs.
    pub fn new(width: usize, height: usize, goal: usize, players: usize) -> (g: Game)
        requires
            width >= 1,
            height >= 1,
            goal >= 1,
            players >= 2,
            width * height <= usize::MAX,
        ensures
            g.view_of() == fresh_view(width as int, height as int, goal as int, players as int),
            g.view_of().wf(),
    {
        let board = Board::new(width, height, goal);
        let g = Game { board, players, turn: 0 };
        assert(g.view_of().board.cells =~= fresh_view(
            width as int,
            height as int,
            goal as int,
            players as int,
        ).board.cells);
        g
    }

    fn set_tile(&mut self, x: usize, y: usize, tile: Tile)
        requires
            old(self).view_of().wf(),
            old(self).view_of().board.in_bounds(x as int, y as int),
        ensures
            final(self).view_of().wf(),
            final(self).view_of() == (GameView {
                board: BoardView {
                    cells: old(self).view_of().board.cells.update(
                        y * old(self).view_of().board.width + x,
                        tile,
                    ),
                    ..old(self).view_of().board
                },
                ..old(self).view_of()
            }),
    {
        self.board.set(x, y, tile)
    }

    /// Passes the turn to the next player, wrapping round after the last one.
    pub fn next_turn(&mut self)
        requires
            old(self).view_of().wf(),
        ensures
            final(self).view_of().wf(),
            final(self).view_of() == (GameView {
                turn: (old(self).view_of().turn + 1) % old(self).view_of().players,
                ..old(self).view_of()
            }),
    {
        let before = self.turn;
        self.turn = (self.turn + 1) % self.players;
        assert(self.turn < self.players) by (nonlinear_arith)
            requires
                self.turn == (before + 1) % (self.players as int),
                self.players > 0;
    }

    /// A new game, or the first rule of `config_error` that the configuration breaks.
    pub fn create(width: usize, height: usize, goal: usize, players: usize) -> (r: Result<
        Game,
        CreateGameError,
    >)
        requires
            width * height <= usize::MAX,
        ensures
            match config_error(width as int, height as int, goal as int, players as int) {
                Some(e) => r == Err::<Game, CreateGameError>(e),
                None => r matches Ok(g) && g.view_of() == fresh_view(
                    width as int,
                    height as int,
                    goal as int,
                    players as int,
                ) && g.view_of().wf(),
            },
    {
        if width < crate::core_game::MIN_DIMENSION || height < crate::core_game::MIN_DIMENSION {
            Err(CreateGameError::DimensionTooSmall)
        } else if players < 2 {
            Err(CreateGameError::TooFewPlayers)
        } else if goal < crate::core_game::MIN_GOAL {
            Err(CreateGameError::GoalTooSmall)
        } else if goal > width && goal > height {
            Err(CreateGameError::GoalTooLarge)
        } else {
            Ok(Self::new(width, height, goal, players))
        }
    }

    /// The tile at `(x, y)`, or `None` off the board.
    pub fn get_tile(&self, x: usize, y: usize) -> (r: Option<&Tile>)
        requires
            self.view_of().wf(),
        ensures
            match r {
                Some(t) => self.view_of().board.in_bounds(x as int, y as int)
                    && *t == self.view_of().board.cell(x as int, y as int),
                None => !self.view_of().board.in_bounds(x as int, y as int),
            },
    {
        self.board.get(x, y)
    }

    /// The player to move.
    pub fn get_turn(&self) -> (r: usize)
        ensures
            r == self.view_of().turn,
    {
        self.turn
    }

    /// Plays `(x, y)` for the player to move: refused off the board or on an
    /// occupied cell, with nothing changed; otherwise the cell takes the player
    /// and the turn passes on.
    pub fn place_move(&mut self, x: usize, y: usize) -> (r: Result<(), PlaceMoveError>)
        requires
            old(self).view_of().wf(),
        ensures
            final(self).view_of().wf(),
            match old(self).view_of().place(x as int, y as int) {
                Ok(next) => r is Ok && final(self).view_of() == next,
                Err(e) => r == Err::<(), PlaceMoveError>(place_error(e))
                    && final(self).view_of() == old(self).view_of(),
            },
    {
        match self.get_tile(x, y) {
            Some(tile) => match tile {
                Tile::Empty => {
                    let player = self.get_turn();
                    self.set_tile(x, y, Tile::Player(player));
                    self.next_turn();
                    Ok(())
                },
                Tile::Player(_) => Err(PlaceMoveError::TileNotEmpty),
            },
            None => Err(PlaceMoveError::PositionOutOfRange),
        }
    }

    pub fn get_width(&self) -> (r: usize)
        ensures
            r == self.view_of().board.width,
    {
        self.board.width()
    }

    pub fn get_height(&self) -> (r: usize)
        ensures
            r == self.view_of().board.height,
    {
        self.board.height()
    }

    pub fn get_goal(&self) -> (r: usize)
        ensures
            r == self.view_of().board.goal,
    {
        self.board.goal()
    }

    pub fn get_player_count(&self) -> (r: usize)
        ensures
            r == self.view_of().players,
    {
        self.players
    }
}

impl GameTrait for Game {
    open spec fn state(&self) -> GameView {
        self.view_of()
    }

    fn get_tile(&self, x: usize, y: usize) -> (r: Option<&Tile>) {
        Game::get_tile(self, x, y)
    }

    fn get_turn(&self) -> (r: usize) {
        Game::get_turn(self)
    }

    fn place_move(&mut self, x: usize, y: usize) -> (r: Result<(), PlaceMoveError>) {
        Game::place_move(self, x, y)
    }
}

impl Default for Game {
    /// A 6 by 6 board, lines of 4, two players.
    fn default() -> (g: Game)
        ensures
            g.view_of() == fresh_view(6, 6, 4, 2),
            g.view_of().wf(),
    {
        Self::new(6, 6, 4, 2)
    }
}

} // verus!
