use vstd::prelude::*;

use crate::board::{Board, BoardStatus, BoardView};
use crate::game_interface::{GameState, GameTrait, GameView, PlayMoveError, Tile};

verus! {

/// Smallest accepted board width and height.
pub const MIN_DIMENSION: usize = 3;

/// Smallest accepted winning line length.
pub const MIN_GOAL: usize = 3;

/// Why a game configuration was refused.
#[derive(Clone, Copy, Debug, PartialEq, Eq, Structural)]
pub enum CreateGameError {
    InvalidDimensions,
    NotEnoughPlayers,
    GoalTooSmall,
    GoalTooLarge,
}

/// The first rule that a configuration breaks, checked in this order:
/// dimensions, player count, goal below the minimum, goal longer than both sides.
pub open spec fn create_error(width: int, height: int, goal: int, players: int) -> Option<CreateGameError> {
    if width < MIN_DIMENSION || height < MIN_DIMENSION {
        Some(CreateGameError::InvalidDimensions)
    } else if players < 2 {
        Some(CreateGameError::NotEnoughPlayers)
    } else if goal < MIN_GOAL {
        Some(CreateGameError::GoalTooSmall)
    } else if goal > width && goal > height {
        Some(CreateGameError::GoalTooLarge)
    } else {
        None
    }
}

/// A new game: every cell empty and player 0 to move.
pub open spec fn fresh_view(width: int, height: int, goal: int, players: int) -> GameView {
    GameView {
        board: BoardView {
            width,
            height,
            goal,
            cells: Seq::new((width * height) as nat, |k: int| Tile::Empty),
        },
        players,
        turn: 0,
    }
}

/// Every valid configuration starts as a game in progress with player 0 to move.
pub proof fn lemma_fresh_game_in_progress(width: int, height: int, goal: int, players: int, r: GameState)
    requires
        create_error(width, height, goal, players) is None,
        fresh_view(width, height, goal, players).outcome_ok(r),
    ensures
        r == GameState::PlayerMove(0),
{
    let v = fresh_view(width, height, goal, players);
    crate::board::lemma_index_in_bounds(0, 0, width, height);
    assert(v.board.cell(0, 0) == Tile::Empty);
    assert(v.board.has_empty());
    assert forall|x: int, y: int| v.board.in_bounds(x, y) implies !#[trigger] v.board.wins_from(x, y) by {
        crate::board::lemma_index_in_bounds(x, y, width, height);
        assert(v.board.cell(x, y) == Tile::Empty);
    }
    if let GameState::PlayerWon(p) = r {
        let (x, y) = choose|x: int, y: int|
            #[trigger] v.board.is_first_win(x, y) && v.board.cell(x, y) == Tile::Player(p);
        assert(v.board.in_bounds(x, y) && v.board.wins_from(x, y));
    }
}

/// The board engine: dimensions, player count, goal, cells and whose turn it is.
pub struct CoreGame {
    board: Board,
    players: usize,
    turn: usize,
}

impl CoreGame {
    fn new(width: usize, height: usize, goal: usize, players: usize) -> (g: CoreGame)
        requires
            width >= 1,
            height >= 1,
            goal >= 1,
            players >= 2,
            width * height <= usize::MAX,
        ensures
            g.model() == fresh_view(width as int, height as int, goal as int, players as int),
            g.model().wf(),
    {
        let board = Board::new(width, height, goal);
        let g = CoreGame { board, players, turn: 0 };
        assert(g.model().board.cells =~= fresh_view(
            width as int,
            height as int,
            goal as int,
            players as int,
        ).board.cells);
        g
    }

    /// A new game, or the first rule of `create_error` that the configuration breaks.
    pub fn create(width: usize, height: usize, goal: usize, players: usize) -> (r: Result<
        CoreGame,
        CreateGameError,
    >)
        requires
            width * height <= usize::MAX,
        ensures
            match create_error(width as int, height as int, goal as int, players as int) {
                Some(e) => r == Err::<CoreGame, CreateGameError>(e),
                None => r matches Ok(g) && g.model() == fresh_view(
                    width as int,
                    height as int,
                    goal as int,
                    players as int,
                ) && g.model().wf(),
            },
    {
        if width < MIN_DIMENSION || height < MIN_DIMENSION {
            Err(CreateGameError::InvalidDimensions)
        } else if players < 2 {
            Err(CreateGameError::NotEnoughPlayers)
        } else if goal < MIN_GOAL {
            Err(CreateGameError::GoalTooSmall)
        } else if goal > width && goal > height {
            Err(CreateGameError::GoalTooLarge)
        } else {
            Ok(CoreGame::new(width, height, goal, players))
        }
    }

    fn set_tile(&mut self, x: usize, y: usize, tile: Tile)
        requires
            old(self).model().wf(),
            old(self).model().board.in_bounds(x as int, y as int),
        ensures
            final(self).model().wf(),
            final(self).model() == (GameView {
                board: BoardView {
                    cells: old(self).model().board.cells.update(
                        y * old(self).model().board.width + x,
                        tile,
                    ),
                    ..old(self).model().board
                },
                ..old(self).model()
            }),
    {
        self.board.set(x, y, tile);
    }

    /// Plays `(x, y)` for the player to move: refused off the board or on an
    /// occupied cell, with nothing changed; otherwise the cell takes the player
    /// and the turn passes to the next one.
    pub fn play_move(&mut self, x: usize, y: usize) -> (r: Result<(), PlayMoveError>)
        requires
            old(self).model().wf(),
        ensures
            final(self).model().wf(),
            match old(self).model().place(x as int, y as int) {
                Ok(next) => r is Ok && final(self).model() == next,
                Err(e) => r == Err::<(), PlayMoveError>(e) && final(self).model() == old(self).model(),
            },
    {
        match self.board.get(x, y) {
            Some(tile) => match tile {
                Tile::Empty => {
                    let player = self.turn;
                    self.set_tile(x, y, Tile::Player(player));
                    self.turn = (self.turn + 1) % self.players;
                    assert(self.turn < self.players) by (nonlinear_arith)
                        requires
                            self.turn == (player + 1) % (self.players as int),
                            self.players > 0;
                    Ok(())
                },
                Tile::Player(_) => Err(PlayMoveError::TileNotEmpty),
            },
            None => Err(PlayMoveError::IndexOutOfBounds),
        }
    }
}

impl GameTrait for CoreGame {
    closed spec fn model(&self) -> GameView {
        GameView { board: self.board@, players: self.players as int, turn: self.turn as int }
    }

    fn get_tile(&self, x: usize, y: usize) -> (r: Option<&Tile>) {
        self.board.get(x, y)
    }

    fn get_game_state(&self) -> (r: GameState) {
        match self.board.status() {
            BoardStatus::Won(p) => GameState::PlayerWon(p),
            BoardStatus::Open => GameState::PlayerMove(self.turn),
            BoardStatus::Full => GameState::Draw,
        }
    }

    fn play_move(&mut self, x: usize, y: usize) -> (r: Result<(), PlayMoveError>) {
        let ghost before = self.model();
        let r = CoreGame::play_move(self, x, y);
        proof {
            if before.place(x as int, y as int) is Ok {
                crate::game_interface::lemma_place_leads_to(before, x as int, y as int);
            }
        }
        r
    }

    fn get_current_player(&self) -> (r: usize) {
        self.turn
    }

    fn get_player_count(&self) -> (r: usize) {
        self.players
    }

    fn get_width(&self) -> (r: usize) {
        self.board.width()
    }

    fn get_height(&self) -> (r: usize) {
        self.board.height()
    }

    fn get_goal(&self) -> (r: usize) {
        self.board.goal()
    }
}

impl Default for CoreGame {
    /// A 6 by 6 board, lines of 4, two players.
    fn default() -> (g: CoreGame)
        ensures
            g.model() == fresh_view(6, 6, 4, 2),
            g.model().wf(),
    {
        CoreGame::new(6, 6, 4, 2)
    }
}

} // verus!
