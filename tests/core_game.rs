use connect_game::core_game::{CoreGame, CreateGameError};
use connect_game::game_interface::{GameState, GameTrait, PlayMoveError, Tile};

#[test]
fn get_game_state() {
    let mut game = CoreGame::default();

    assert!(
        match game.get_game_state() {
            GameState::PlayerMove(0) => true,
            _ => false,
        },
        "A new game should start with player 0"
    );

    let _ = game.play_move(0, 0);

    assert!(
        match game.get_game_state() {
            GameState::PlayerMove(1) => true,
            _ => false,
        },
        "Playing a move should cause the game state to be the next players move"
    );

    let _ = game.play_move(0, 1);
    let _ = game.play_move(1, 0);
    let _ = game.play_move(1, 1);
    let _ = game.play_move(2, 0);
    let _ = game.play_move(2, 1);
    let _ = game.play_move(3, 0);

    assert!(
        match game.get_game_state() {
            GameState::PlayerWon(0) => true,
            _ => false,
        },
        "Player 0 should have won"
    );
}

#[test]
fn fresh_games_are_in_progress_with_player_zero() {
    for (w, h, g, p) in [(6, 6, 4, 2), (3, 3, 3, 2), (5, 12, 10, 2), (12, 5, 10, 4), (7, 4, 3, 9)] {
        let game = CoreGame::create(w, h, g, p).ok().unwrap();
        assert_eq!(game.get_game_state(), GameState::PlayerMove(0));
        assert_eq!(game.get_current_player(), 0);
        assert_eq!(game.get_width(), w);
        assert_eq!(game.get_height(), h);
        assert_eq!(game.get_goal(), g);
        assert_eq!(game.get_player_count(), p);
    }
}

#[test]
fn construction_rules() {
    assert!(CoreGame::create(6, 6, 4, 2).is_ok());
    assert_eq!(CoreGame::create(0, 6, 4, 2).err(), Some(CreateGameError::InvalidDimensions));
    assert_eq!(CoreGame::create(6, 0, 4, 2).err(), Some(CreateGameError::InvalidDimensions));
    assert_eq!(CoreGame::create(2, 6, 3, 2).err(), Some(CreateGameError::InvalidDimensions));
    assert_eq!(CoreGame::create(6, 6, 4, 1).err(), Some(CreateGameError::NotEnoughPlayers));
    assert_eq!(CoreGame::create(6, 6, 4, 0).err(), Some(CreateGameError::NotEnoughPlayers));
    assert_eq!(CoreGame::create(6, 6, 2, 2).err(), Some(CreateGameError::GoalTooSmall));
    assert_eq!(CoreGame::create(6, 6, 7, 2).err(), Some(CreateGameError::GoalTooLarge));
    assert!(CoreGame::create(5, 12, 10, 2).is_ok());
    assert!(CoreGame::create(12, 5, 10, 2).is_ok());
    // the first broken rule decides
    assert_eq!(CoreGame::create(0, 6, 9, 0).err(), Some(CreateGameError::InvalidDimensions));
    assert_eq!(CoreGame::create(6, 6, 9, 1).err(), Some(CreateGameError::NotEnoughPlayers));
    assert_eq!(CoreGame::create(6, 6, 1, 2).err(), Some(CreateGameError::GoalTooSmall));
}

#[test]
fn out_of_range_move_is_refused_and_changes_nothing() {
    let mut game = CoreGame::default();
    let _ = game.play_move(2, 2);
    let before = game.get_game_state();
    assert_eq!(game.play_move(6, 0), Err(PlayMoveError::IndexOutOfBounds));
    assert_eq!(game.play_move(0, 6), Err(PlayMoveError::IndexOutOfBounds));
    assert_eq!(game.play_move(usize::MAX, usize::MAX), Err(PlayMoveError::IndexOutOfBounds));
    assert_eq!(game.get_game_state(), before);
    assert_eq!(game.get_current_player(), 1);
    assert_eq!(game.get_tile(6, 0), None);
    assert_eq!(game.get_tile(0, 6), None);
}

#[test]
fn occupied_move_is_refused_and_changes_nothing() {
    let mut game = CoreGame::default();
    assert_eq!(game.play_move(4, 1), Ok(()));
    assert_eq!(game.play_move(4, 1), Err(PlayMoveError::TileNotEmpty));
    assert_eq!(game.get_current_player(), 1);
    assert_eq!(game.get_tile(4, 1), Some(&Tile::Player(0)));
    assert_eq!(game.get_tile(1, 4), Some(&Tile::Empty));
}

#[test]
fn turn_order_cycles() {
    let mut game = CoreGame::create(6, 6, 4, 4).ok().unwrap();
    let mut seen = Vec::new();
    for x in 0..5 {
        seen.push(game.get_current_player());
        assert_eq!(game.play_move(x, 0), Ok(()));
    }
    assert_eq!(seen, vec![0, 1, 2, 3, 0]);
    assert_eq!(game.get_current_player(), 1);
    assert_eq!(game.get_tile(4, 0), Some(&Tile::Player(0)));
    assert_eq!(game.get_tile(3, 0), Some(&Tile::Player(3)));
}

#[test]
fn vertical_and_diagonal_wins() {
    // vertical for player 1
    let mut game = CoreGame::default();
    for (x, y) in [(0, 0), (5, 0), (0, 1), (5, 1), (1, 3), (5, 2), (2, 4), (5, 3)] {
        assert_eq!(game.play_move(x, y), Ok(()));
    }
    assert_eq!(game.get_game_state(), GameState::PlayerWon(1));

    // diagonal down-right for player 0
    let mut game = CoreGame::default();
    for (x, y) in [(0, 0), (5, 0), (1, 1), (5, 1), (2, 2), (5, 3), (3, 3)] {
        assert_eq!(game.play_move(x, y), Ok(()));
    }
    assert_eq!(game.get_game_state(), GameState::PlayerWon(0));

    // diagonal down-left for player 0
    let mut game = CoreGame::default();
    for (x, y) in [(5, 1), (0, 0), (4, 2), (0, 1), (3, 3), (0, 3), (2, 4)] {
        assert_eq!(game.play_move(x, y), Ok(()));
    }
    assert_eq!(game.get_game_state(), GameState::PlayerWon(0));

    // three in a row is not enough, and a broken line does not count
    let mut game = CoreGame::default();
    for (x, y) in [(0, 5), (0, 0), (1, 5), (0, 1), (2, 5), (0, 2), (4, 5)] {
        assert_eq!(game.play_move(x, y), Ok(()));
    }
    assert_eq!(game.get_game_state(), GameState::PlayerMove(1));
}

#[test]
fn winner_is_stable_between_moves() {
    let mut game = CoreGame::default();
    for (x, y) in [(0, 0), (0, 1), (1, 0), (1, 1), (2, 0), (2, 1), (3, 0)] {
        let first = game.get_game_state();
        assert_eq!(game.get_game_state(), first);
        assert_eq!(game.get_game_state(), first);
        let _ = game.play_move(x, y);
    }
    let last = game.get_game_state();
    assert_eq!(last, GameState::PlayerWon(0));
    for _ in 0..3 {
        assert_eq!(game.get_game_state(), last);
    }
}

#[test]
fn full_board_without_line_is_a_draw() {
    let mut zero = Vec::new();
    let mut one = Vec::new();
    for y in 0..6usize {
        for x in 0..6usize {
            if (x / 2 + y) % 2 == 0 {
                zero.push((x, y));
            } else {
                one.push((x, y));
            }
        }
    }
    assert_eq!(zero.len(), one.len());
    let mut game = CoreGame::default();
    for i in 0..zero.len() {
        assert_eq!(game.play_move(zero[i].0, zero[i].1), Ok(()));
        assert_eq!(game.play_move(one[i].0, one[i].1), Ok(()));
    }
    assert_eq!(game.get_game_state(), GameState::Draw);
    for y in 0..6 {
        for x in 0..6 {
            assert_ne!(game.get_tile(x, y), Some(&Tile::Empty));
        }
    }
}

#[test]
fn three_by_three_draw() {
    let mut game = CoreGame::create(3, 3, 3, 2).ok().unwrap();
    for (x, y) in [(0, 0), (1, 0), (2, 0), (1, 1), (0, 1), (2, 1), (1, 2), (0, 2)] {
        assert_eq!(game.play_move(x, y), Ok(()));
        assert!(matches!(game.get_game_state(), GameState::PlayerMove(_)));
    }
    assert_eq!(game.play_move(2, 2), Ok(()));
    assert_eq!(game.get_game_state(), GameState::Draw);
}
