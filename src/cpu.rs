use vstd::prelude::*;

verus! {

/// Who chooses the moves of a player.
#[derive(Clone, Copy, Debug, PartialEq, Eq, Structural)]
pub enum PlayerType {
    CPU,
    User,
}

/// Which players of a game are automated.
pub trait CpuTrait: Sized {
    /// Number of players in the game.
    spec fn player_total(&self) -> int;

    /// `player` is automated.
    spec fn is_cpu(&self, player: int) -> bool;

    /// The type of `player`, or `None` for an index past the last player.
    fn get_player_type(&self, player: usize) -> (r: Option<PlayerType>)
        ensures
            player >= self.player_total() ==> r is None,
            player < self.player_total() ==> r == Some(
                if self.is_cpu(player as int) { PlayerType::CPU } else { PlayerType::User },
            ),
    ;

    /// Every player of type `player_type`, in increasing order.
    fn get_players_of_type(&self, player_type: PlayerType) -> (r: Vec<usize>)
        ensures
            forall|i: int, j: int| 0 <= i < j < r@.len() ==> r@[i] < r@[j],
            forall|i: int|
                0 <= i < r@.len() ==> r@[i] < self.player_total()
                    && self.is_cpu(#[trigger] r@[i] as int) == (player_type == PlayerType::CPU),
            forall|p: int|
                0 <= p < self.player_total() && #[trigger] self.is_cpu(p) == (player_type == PlayerType::CPU)
                    ==> r@.contains(p as usize),
    ;
}

} // verus!
