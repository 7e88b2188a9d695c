use vstd::prelude::*;

use crate::core_game::{create_error, fresh_view, CoreGame, CreateGameError};
use crate::cpu::{CpuTrait, PlayerType};
use crate::game_interface::{empty_count, lemma_outcome_unique, lemma_place_leads_to, GameState, GameTrait, GameView, PlayMoveError, Tile};

verus! {

/// Why a set of automated players was refused.
#[derive(Clone, Copy, Debug, PartialEq, Eq, Structural)]
pub enum NewCpuGameError {
    CpuPlayerOutOfRange,
}

/// Why an automated game could not be created.
#[derive(Clone, Copy, Debug, PartialEq, Eq, Structural)]
pub enum CreateCpuGameError {
    NewCpuGame(NewCpuGameError),
    CreateGame(CreateGameError),
}

impl From<CreateGameError> for CreateCpuGameError {
    fn from(error: CreateGameError) -> (r: Self) {
        CreateCpuGameError::CreateGame(error)
    }
}

impl vstd::std_specs::convert::FromSpecImpl<CreateGameError> for CreateCpuGameError {
    open spec fn obeys_from_spec() -> bool {
        true
    }

    open spec fn from_spec(error: CreateGameError) -> Self {
        CreateCpuGameError::CreateGame(error)
    }
}

impl From<NewCpuGameError> for CreateCpuGameError {
    fn from(error: NewCpuGameError) -> (r: Self) {
        CreateCpuGameError::NewCpuGame(error)
    }
}

impl vstd::std_specs::convert::FromSpecImpl<NewCpuGameError> for CreateCpuGameError {
    open spec fn obeys_from_spec() -> bool {
        true
    }

    open spec fn from_spec(error: NewCpuGameError) -> Self {
        CreateCpuGameError::NewCpuGame(error)
    }
}

/// Some listed player index is not a player of a game with `players` players.
pub open spec fn cpu_out_of_range(cpu_players: Seq<usize>, players: int) -> bool {
    exists|i: int| 0 <= i < cpu_players.len() && #[trigger] cpu_players[i] >= players
}

/// Playing on from `a` to `b` and from `b` to `c` plays on from `a` to `c`.
pub proof fn lemma_leads_to_trans(a: GameView, b: GameView, c: GameView)
    requires
        a.leads_to(b),
        b.leads_to(c),
    ensures
        a.leads_to(c),
{
    assert forall|k: int| 0 <= k < a.board.cells.len() && a.board.cells[k] != Tile::Empty
        implies #[trigger] c.board.cells[k] == a.board.cells[k] by {
        assert(b.board.cells[k] == a.board.cells[k]);
    }
}

/// A game in which some players are automated: after each accepted move, the
/// automated players to move play until a person is to move or the game ends.
pub struct CpuGame<T: GameTrait> {
    core_game: T,
    cpu_players: Vec<usize>,
}

impl<T: GameTrait> CpuGame<T> {
    pub closed spec fn inner(&self) -> T {
        self.core_game
    }

    pub closed spec fn cpu_list(&self) -> Seq<usize> {
        self.cpu_players@
    }

    /// Wraps `game`, refused when a listed player is not a player of it.
    fn new(game: T, cpu_players: Vec<usize>) -> (r: Result<CpuGame<T>, NewCpuGameError>)
        ensures
            cpu_out_of_range(cpu_players@, game.model().players) ==> r == Err::<CpuGame<T>, NewCpuGameError>(
                NewCpuGameError::CpuPlayerOutOfRange,
            ),
            !cpu_out_of_range(cpu_players@, game.model().players) ==> (r matches Ok(g) && g.inner() == game
                && g.cpu_list() == cpu_players@),
    {
        let count = game.get_player_count();
        let mut i: usize = 0;
        while i < cpu_players.len()
            invariant
                i <= cpu_players@.len(),
                count == game.model().players,
                forall|j: int| 0 <= j < i ==> #[trigger] cpu_players@[j] < count,
            decreases cpu_players@.len() - i,
        {
            if cpu_players[i] >= count {
                return Err(NewCpuGameError::CpuPlayerOutOfRange);
            }
            i += 1;
        }
        Ok(CpuGame { core_game: game, cpu_players })
    }

    /// Whether `player` is automated.
    fn is_cpu_player(&self, player: usize) -> (r: bool)
        ensures
            r == self.cpu_list().contains(player),
    {
        let mut i: usize = 0;
        while i < self.cpu_players.len()
            invariant
                i <= self.cpu_players@.len(),
                forall|j: int| 0 <= j < i ==> #[trigger] self.cpu_players@[j] != player,
            decreases self.cpu_players@.len() - i,
        {
            if self.cpu_players[i] == player {
                return true;
            }
            i += 1;
        }
        false
    }

    /// The move an automated player makes: the first cell of the board.
    fn get_best_move(&self) -> (r: (usize, usize))
        ensures
            r == (0usize, 0usize),
    {
        (0, 0)
    }

    /// Whether the game is in progress with an automated player to move.
    fn cpu_to_move(&self) -> (r: bool)
        requires
            self.core_game.model().wf(),
        ensures
            r == exists|p: usize|
                #[trigger] self.core_game.model().outcome_ok(GameState::PlayerMove(p))
                    && self.cpu_list().contains(p),
    {
        let state = self.core_game.get_game_state();
        proof {
            assert forall|p: usize| #[trigger] self.core_game.model().outcome_ok(GameState::PlayerMove(p))
                implies state == GameState::PlayerMove(p) by {
                lemma_outcome_unique(self.core_game.model(), state, GameState::PlayerMove(p));
            }
        }
        match state {
            GameState::PlayerMove(player) => self.is_cpu_player(player),
            _ => false,
        }
    }

    /// Plays `(x, y)` for the person to move, then lets the automated players
    /// move while one of them is to move in a game in progress. A refused first
    /// move changes nothing; a refused automated move ends the call with its error.
    /// On success no automated player is left to move.
    pub fn play_move(&mut self, x: usize, y: usize) -> (r: Result<(), PlayMoveError>)
        requires
            old(self).model().wf(),
        ensures
            final(self).model().wf(),
            final(self).cpu_list() == old(self).cpu_list(),
            match old(self).model().place(x as int, y as int) {
                Ok(next) => next.leads_to(final(self).model()),
                Err(e) => r == Err::<(), PlayMoveError>(e) && final(self).model() == old(self).model(),
            },
            r is Ok ==> !exists|p: usize|
                #[trigger] final(self).model().outcome_ok(GameState::PlayerMove(p))
                    && final(self).cpu_list().contains(p),
    {
        let ghost start = self.core_game.model();
        match self.core_game.play_move(x, y) {
            Err(e) => {
                return Err(e);
            },
            Ok(()) => {},
        }
        let ghost next = start.place(x as int, y as int)->Ok_0;
        loop
            invariant
                self.core_game.model().wf(),
                self.cpu_players@ == old(self).cpu_players@,
                start == old(self).core_game.model(),
                start.place(x as int, y as int) is Ok,
                next == start.place(x as int, y as int)->Ok_0,
                next.leads_to(self.core_game.model()),
            ensures
                self.core_game.model().wf(),
                self.cpu_players@ == old(self).cpu_players@,
                next.leads_to(self.core_game.model()),
                !exists|p: usize|
                    #[trigger] self.core_game.model().outcome_ok(GameState::PlayerMove(p))
                        && self.cpu_players@.contains(p),
            decreases empty_count(self.core_game.model().board.cells),
        {
            if !self.cpu_to_move() {
                break;
            }
            let (bx, by) = self.get_best_move();
            let ghost here = self.core_game.model();
            match self.core_game.play_move(bx, by) {
                Err(e) => {
                    proof {
                        if here.place(bx as int, by as int) is Ok {
                            lemma_place_leads_to(here, bx as int, by as int);
                            let after = here.place(bx as int, by as int)->Ok_0;
                            lemma_leads_to_trans(here, after, self.core_game.model());
                            lemma_leads_to_trans(next, here, self.core_game.model());
                        }
                    }
                    return Err(e);
                },
                Ok(()) => {},
            }
            proof {
                lemma_place_leads_to(here, bx as int, by as int);
                let after = here.place(bx as int, by as int)->Ok_0;
                lemma_leads_to_trans(here, after, self.core_game.model());
                lemma_leads_to_trans(next, here, self.core_game.model());
            }
        }
        Ok(())
    }
}

impl CpuGame<CoreGame> {
    /// A new engine game with the listed players automated: refused first by the
    /// rules of `create_error`, then when a listed player is out of range.
    pub fn create(width: usize, height: usize, goal: usize, player_count: usize, cpu_players: Vec<usize>) -> (r:
        Result<CpuGame<CoreGame>, CreateCpuGameError>)
        requires
            width * height <= usize::MAX,
        ensures
            match create_error(width as int, height as int, goal as int, player_count as int) {
                Some(e) => r == Err::<CpuGame<CoreGame>, CreateCpuGameError>(CreateCpuGameError::CreateGame(e)),
                None => if cpu_out_of_range(cpu_players@, player_count as int) {
                    r == Err::<CpuGame<CoreGame>, CreateCpuGameError>(
                        CreateCpuGameError::NewCpuGame(NewCpuGameError::CpuPlayerOutOfRange),
                    )
                } else {
                    r matches Ok(g) && g.model() == fresh_view(
                        width as int,
                        height as int,
                        goal as int,
                        player_count as int,
                    ) && g.cpu_list() == cpu_players@
                },
            },
    {
        match CoreGame::create(width, height, goal, player_count) {
            Err(e) => Err(CreateCpuGameError::from(e)),
            Ok(game) => match CpuGame::new(game, cpu_players) {
                Err(e) => Err(CreateCpuGameError::from(e)),
                Ok(g) => Ok(g),
            },
        }
    }
}

impl<T: GameTrait> GameTrait for CpuGame<T> {
    closed spec fn model(&self) -> GameView {
        self.core_game.model()
    }

    fn get_tile(&self, x: usize, y: usize) -> (r: Option<&Tile>) {
        self.core_game.get_tile(x, y)
    }

    fn get_game_state(&self) -> (r: GameState) {
        self.core_game.get_game_state()
    }

    fn play_move(&mut self, x: usize, y: usize) -> (r: Result<(), PlayMoveError>) {
        CpuGame::play_move(self, x, y)
    }

    fn get_current_player(&self) -> (r: usize) {
        self.core_game.get_current_player()
    }

    fn get_player_count(&self) -> (r: usize) {
        self.core_game.get_player_count()
    }

    fn get_width(&self) -> (r: usize) {
        self.core_game.get_width()
    }

    fn get_height(&self) -> (r: usize) {
        self.core_game.get_height()
    }

    fn get_goal(&self) -> (r: usize) {
        self.core_game.get_goal()
    }
}

impl<T: GameTrait> CpuTrait for CpuGame<T> {
    open spec fn player_total(&self) -> int {
        self.model().players
    }

    open spec fn is_cpu(&self, player: int) -> bool {
        self.cpu_list().contains(player as usize)
    }

    fn get_player_type(&self, player: usize) -> (r: Option<PlayerType>) {
        if player >= self.core_game.get_player_count() {
            None
        } else if self.is_cpu_player(player) {
            Some(PlayerType::CPU)
        } else {
            Some(PlayerType::User)
        }
    }

    fn get_players_of_type(&self, player_type: PlayerType) -> (r: Vec<usize>) {
        let count = self.core_game.get_player_count();
        let mut out: Vec<usize> = Vec::new();
        let mut p: usize = 0;
        while p < count
            invariant
                p <= count,
                count == self.player_total(),
                forall|i: int, j: int| 0 <= i < j < out@.len() ==> out@[i] < out@[j],
                forall|i: int| 0 <= i < out@.len() ==> out@[i] < p,
                forall|i: int|
                    0 <= i < out@.len() ==> out@[i] < self.player_total()
                        && self.is_cpu(#[trigger] out@[i] as int) == (player_type == PlayerType::CPU),
                forall|q: int|
                    0 <= q < p && #[trigger] self.is_cpu(q) == (player_type == PlayerType::CPU)
                        ==> out@.contains(q as usize),
            decreases count - p,
        {
            let cpu = self.is_cpu_player(p);
            let ghost old_out = out@;
            if cpu == (player_type == PlayerType::CPU) {
                out.push(p);
                assert(out@[out@.len() - 1] == p);
                assert forall|q: int|
                    0 <= q < p + 1 && #[trigger] self.is_cpu(q) == (player_type == PlayerType::CPU)
                        implies out@.contains(q as usize) by {
                    if q < p {
                        let i = choose|i: int| 0 <= i < old_out.len() && old_out[i] == q as usize;
                        assert(out@[i] == q as usize);
                    } else {
                        assert(out@[out@.len() - 1] == q as usize);
                    }
                }
            }
            p += 1;
        }
        out
    }
}

} // verus!
