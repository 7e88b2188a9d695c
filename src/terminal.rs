use vstd::prelude::*;

use crate::game_interface::{GameState, GameTrait, GameView, PlayMoveError, Tile};

verus! {

/// The layer a text interface drives: every call goes to the wrapped game unchanged.
pub struct TermGame<T: GameTrait> {
    game: T,
}

impl<T: GameTrait> TermGame<T> {
    pub closed spec fn inner(&self) -> T {
        self.game
    }

    /// Converting a game wraps it unchanged.
    pub proof fn lemma_from_wraps(game: T)
        ensures
            <TermGame<T> as vstd::std_specs::convert::FromSpec<T>>::from_spec(game).inner() == game,
            <TermGame<T> as vstd::std_specs::convert::FromSpec<T>>::obeys_from_spec(),
    {
    }
}

impl<T: GameTrait> GameTrait for TermGame<T> {
    open spec fn model(&self) -> GameView {
        self.inner().model()
    }

    fn get_tile(&self, x: usize, y: usize) -> (r: Option<&Tile>) {
        self.game.get_tile(x, y)
    }

    fn get_game_state(&self) -> (r: GameState) {
        self.game.get_game_state()
    }

    fn play_move(&mut self, x: usize, y: usize) -> (r: Result<(), PlayMoveError>) {
        self.game.play_move(x, y)
    }

    fn get_current_player(&self) -> (r: usize) {
        self.game.get_current_player()
    }

    fn get_player_count(&self) -> (r: usize) {
        self.game.get_player_count()
    }

    fn get_width(&self) -> (r: usize) {
        self.game.get_width()
    }

    fn get_height(&self) -> (r: usize) {
        self.game.get_height()
    }

    fn get_goal(&self) -> (r: usize) {
        self.game.get_goal()
    }
}

impl<T: GameTrait> From<T> for TermGame<T> {
    fn from(game: T) -> (r: Self) {
        TermGame { game }
    }
}

impl<T: GameTrait> vstd::std_specs::convert::FromSpecImpl<T> for TermGame<T> {
    open spec fn obeys_from_spec() -> bool {
        true
    }

    closed spec fn from_spec(game: T) -> Self {
        TermGame { game }
    }
}

} // verus!
