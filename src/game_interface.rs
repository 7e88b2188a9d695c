use vstd::prelude::*;

use crate::board::{BoardStatus, BoardView};

verus! {

/// Content of one board cell.
#[derive(Clone, Copy, Debug, PartialEq, Eq, Structural)]
pub enum Tile {
    Empty,
    Player(usize),
}

/// Why a move was refused.
#[derive(Clone, Copy, Debug, PartialEq, Eq, Structural)]
pub enum PlayMoveError {
    IndexOutOfBounds,
    TileNotEmpty,
}

/// Outcome of a game as computed from its board.
#[derive(Clone, Copy, Debug, PartialEq, Eq, Structural)]
pub enum GameState {
    /// No winner yet; this player moves next.
    PlayerMove(usize),
    /// This player completed a line.
    PlayerWon(usize),
    /// Every cell is occupied and nobody has a line.
    Draw,
}

/// Mathematical picture of a game: the board, the number of players and whose turn it is.
pub struct GameView {
    pub board: BoardView,
    pub players: int,
    pub turn: int,
}

/// Number of empty cells in `s`.
pub open spec fn empty_count(s: Seq<Tile>) -> nat
    decreases s.len(),
{
    if s.len() == 0 {
        0
    } else {
        empty_count(s.drop_last()) + if s.last() == Tile::Empty { 1nat } else { 0nat }
    }
}

impl GameView {
    pub open spec fn wf(self) -> bool {
        &&& self.board.wf()
        &&& self.players >= 2
        &&& 0 <= self.turn < self.players
    }

    /// The game after the player to move takes `(x, y)`, or why that move is refused.
    pub open spec fn place(self, x: int, y: int) -> Result<GameView, PlayMoveError> {
        if !self.board.in_bounds(x, y) {
            Err(PlayMoveError::IndexOutOfBounds)
        } else if self.board.cell(x, y) != Tile::Empty {
            Err(PlayMoveError::TileNotEmpty)
        } else {
            Ok(GameView {
                board: BoardView {
                    cells: self.board.cells.update(
                        y * self.board.width + x,
                        Tile::Player(self.turn as usize),
                    ),
                    ..self.board
                },
                turn: (self.turn + 1) % self.players,
                ..self
            })
        }
    }

    /// `r` is the outcome of this game.
    pub open spec fn outcome_ok(self, r: GameState) -> bool {
        match r {
            GameState::PlayerWon(p) => self.board.status_ok(BoardStatus::Won(p)),
            GameState::PlayerMove(p) => self.board.status_ok(BoardStatus::Open) && p == self.turn,
            GameState::Draw => self.board.status_ok(BoardStatus::Full),
        }
    }

    /// `later` is this game with zero or more further moves played: same
    /// configuration, every occupied cell kept, no more empty cells than before.
    pub open spec fn leads_to(self, later: GameView) -> bool {
        &&& later.wf()
        &&& later.board.width == self.board.width
        &&& later.board.height == self.board.height
        &&& later.board.goal == self.board.goal
        &&& later.players == self.players
        &&& later.board.cells.len() == self.board.cells.len()
        &&& forall|k: int|
            0 <= k < self.board.cells.len() && self.board.cells[k] != Tile::Empty
                ==> #[trigger] later.board.cells[k] == self.board.cells[k]
        &&& empty_count(later.board.cells) <= empty_count(self.board.cells)
    }
}

/// Filling an empty cell leaves one empty cell fewer.
pub proof fn lemma_empty_count_fill(s: Seq<Tile>, k: int, t: Tile)
    requires
        0 <= k < s.len(),
        s[k] == Tile::Empty,
        t != Tile::Empty,
    ensures
        empty_count(s.update(k, t)) + 1 == empty_count(s),
    decreases s.len(),
{
    if k == s.len() - 1 {
        assert(s.update(k, t).drop_last() =~= s.drop_last());
    } else {
        lemma_empty_count_fill(s.drop_last(), k, t);
        assert(s.update(k, t).drop_last() =~= s.drop_last().update(k, t));
    }
}

/// A successful placement is a step forward: it keeps every occupied cell and
/// removes one empty cell.
pub proof fn lemma_place_leads_to(v: GameView, x: int, y: int)
    requires
        v.wf(),
        v.place(x, y) is Ok,
    ensures
        v.leads_to(v.place(x, y)->Ok_0),
        empty_count(v.place(x, y)->Ok_0.board.cells) + 1 == empty_count(v.board.cells),
{
    crate::board::lemma_index_in_bounds(x, y, v.board.width, v.board.height);
    let k = y * v.board.width + x;
    lemma_empty_count_fill(v.board.cells, k, Tile::Player(v.turn as usize));
}

/// The outcome is a function of the game: two outcomes that both fit the same
/// game are equal, so asking again without a move in between gives the same answer.
pub proof fn lemma_outcome_unique(v: GameView, r1: GameState, r2: GameState)
    requires
        v.wf(),
        v.outcome_ok(r1),
        v.outcome_ok(r2),
    ensures
        r1 == r2,
{
    if let GameState::PlayerWon(p1) = r1 {
        let (x1, y1) = choose|x: int, y: int|
            #[trigger] v.board.is_first_win(x, y) && v.board.cell(x, y) == Tile::Player(p1);
        assert(v.board.in_bounds(x1, y1) && v.board.wins_from(x1, y1));
        if let GameState::PlayerWon(p2) = r2 {
            let (x2, y2) = choose|x: int, y: int|
                #[trigger] v.board.is_first_win(x, y) && v.board.cell(x, y) == Tile::Player(p2);
            assert(v.board.in_bounds(x2, y2) && v.board.wins_from(x2, y2));
            if crate::board::before(x1, y1, x2, y2) {
                assert(!v.board.wins_from(x1, y1));
            } else if crate::board::before(x2, y2, x1, y1) {
                assert(!v.board.wins_from(x2, y2));
            }
            assert(x1 == x2 && y1 == y2);
        }
    } else if let GameState::PlayerWon(p2) = r2 {
        let (x2, y2) = choose|x: int, y: int|
            #[trigger] v.board.is_first_win(x, y) && v.board.cell(x, y) == Tile::Player(p2);
        assert(v.board.in_bounds(x2, y2) && v.board.wins_from(x2, y2));
    }
}

/// A move off the board is refused as out of range, and the outcome stays what it was.
pub proof fn lemma_out_of_range_move(v: GameView, x: int, y: int, before: GameState)
    requires
        v.wf(),
        !v.board.in_bounds(x, y),
        v.outcome_ok(before),
    ensures
        v.place(x, y) == Err::<GameView, PlayMoveError>(PlayMoveError::IndexOutOfBounds),
        forall|after: GameState| v.outcome_ok(after) ==> after == before,
{
    assert forall|after: GameState| v.outcome_ok(after) implies after == before by {
        lemma_outcome_unique(v, after, before);
    }
}

/// A move onto an occupied cell is refused as such.
pub proof fn lemma_occupied_move(v: GameView, x: int, y: int)
    requires
        v.wf(),
        v.board.in_bounds(x, y),
        v.board.cell(x, y) != Tile::Empty,
    ensures
        v.place(x, y) == Err::<GameView, PlayMoveError>(PlayMoveError::TileNotEmpty),
{
}

/// An accepted move gives the cell to the player to move and passes the turn on
/// to the next player, wrapping round after the last one.
pub proof fn lemma_turn_advances(v: GameView, x: int, y: int)
    requires
        v.wf(),
        v.board.in_bounds(x, y),
        v.board.cell(x, y) == Tile::Empty,
    ensures
        v.place(x, y) is Ok,
        v.place(x, y)->Ok_0.wf(),
        v.place(x, y)->Ok_0.turn == (v.turn + 1) % v.players,
        v.place(x, y)->Ok_0.board.cell(x, y) == Tile::Player(v.turn as usize),
        v.turn + 1 < v.players ==> v.place(x, y)->Ok_0.turn == v.turn + 1,
        v.turn + 1 == v.players ==> v.place(x, y)->Ok_0.turn == 0,
{
    crate::board::lemma_index_in_bounds(x, y, v.board.width, v.board.height);
    let t = (v.turn + 1) % v.players;
    assert(0 <= t < v.players) by (nonlinear_arith)
        requires t == (v.turn + 1) % v.players, v.players > 0;
    if v.turn + 1 < v.players {
        vstd::arithmetic::div_mod::lemma_small_mod((v.turn + 1) as nat, v.players as nat);
    } else {
        vstd::arithmetic::div_mod::lemma_mod_self_0(v.players);
    }
}

/// With no winning line and no empty cell the game is drawn, and a drawn game
/// has no empty cell.
pub proof fn lemma_draw(v: GameView, r: GameState)
    requires
        v.wf(),
        v.outcome_ok(r),
    ensures
        (!v.board.some_win() && !v.board.has_empty()) <==> r == GameState::Draw,
        r == GameState::Draw ==> forall|x: int, y: int|
            v.board.in_bounds(x, y) ==> #[trigger] v.board.cell(x, y) != Tile::Empty,
{
    if let GameState::PlayerWon(p) = r {
        let (x, y) = choose|x: int, y: int|
            #[trigger] v.board.is_first_win(x, y) && v.board.cell(x, y) == Tile::Player(p);
        assert(v.board.in_bounds(x, y) && v.board.wins_from(x, y));
    }
}

/// The capability shared by the game engine and the layers wrapped around it.
pub trait GameTrait: Sized {
    spec fn model(&self) -> GameView;

    /// The tile at `(x, y)`, or `None` off the board.
    fn get_tile(&self, x: usize, y: usize) -> (r: Option<&Tile>)
        requires
            self.model().wf(),
        ensures
            match r {
                Some(t) => self.model().board.in_bounds(x as int, y as int)
                    && *t == self.model().board.cell(x as int, y as int),
                None => !self.model().board.in_bounds(x as int, y as int),
            },
    ;

    /// The outcome of the game on the current board.
    fn get_game_state(&self) -> (r: GameState)
        requires
            self.model().wf(),
        ensures
            self.model().outcome_ok(r),
    ;

    /// Plays `(x, y)` for the player to move. A refused move changes nothing;
    /// an accepted one fills the cell, after which a layer may play on.
    fn play_move(&mut self, x: usize, y: usize) -> (r: Result<(), PlayMoveError>)
        requires
            old(self).model().wf(),
        ensures
            final(self).model().wf(),
            match old(self).model().place(x as int, y as int) {
                Ok(next) => next.leads_to(final(self).model()),
                Err(e) => r == Err::<(), PlayMoveError>(e) && final(self).model() == old(self).model(),
            },
    ;

    fn get_current_player(&self) -> (r: usize)
        ensures
            r == self.model().turn,
    ;

    fn get_player_count(&self) -> (r: usize)
        ensures
            r == self.model().players,
    ;

    fn get_width(&self) -> (r: usize)
        ensures
            r == self.model().board.width,
    ;

    fn get_height(&self) -> (r: usize)
        ensures
            r == self.model().board.height,
    ;

    fn get_goal(&self) -> (r: usize)
        ensures
            r == self.model().board.goal,
    ;
}

} // verus!
