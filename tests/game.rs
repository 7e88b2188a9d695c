use connect_game::game::errors::{CreateGameError, NewGameError, PlaceMoveError, PutPlayerError};
use connect_game::game::game::Game as TurnGame;
use connect_game::game::{Game, GameState, Tile};

#[test]
fn create_game() {
    assert!(
        match Game::new(10, 10, 5, 2) {
            Ok(_) => true,
            _ => false,
        },
        "Valid game configurations should return an OK value"
    );
    assert!(
        match Game::new(10, 10, 5, 0) {
            Err(NewGameError::NotEnoughPlayers) => true,
            _ => false,
        },
        "A new game cannot have 0 players"
    );
    assert!(
        match Game::new(10, 10, 5, 1) {
            Err(NewGameError::NotEnoughPlayers) => true,
            _ => false,
        },
        "A new game cannot have 1 player"
    );
    assert!(
        match Game::new(0, 10, 5, 3) {
            Err(NewGameError::InvalidDimensions) => true,
            _ => false,
        },
        "A new game cannot have 0 width"
    );
    assert!(
        match Game::new(10, 0, 5, 3) {
            Err(NewGameError::InvalidDimensions) => true,
            _ => false,
        },
        "A new game cannot have 0 height"
    );
    assert!(
        match Game::new(5, 5, 10, 2) {
            Err(NewGameError::ImpossibleWinLength) => true,
            _ => false,
        },
        "A new game cannot have a win length greater than any dimension"
    );
    assert!(
        match Game::new(5, 12, 10, 2) {
            Err(NewGameError::ImpossibleWinLength) => false,
            _ => true,
        },
        "A new game should be allowed with height > win length > width"
    );
    assert!(
        match Game::new(12, 5, 10, 2) {
            Err(NewGameError::ImpossibleWinLength) => false,
            _ => true,
        },
        "A new game should be allowed with width > win length > height"
    );
}

#[test]
fn put_and_winner() {
    let mut game = Game::new(6, 6, 4, 2).ok().unwrap();
    assert_eq!(game.winner(), GameState::InProgress);
    assert_eq!(game.put(0, 0, 2), Err(PutPlayerError::PlayerOutOfRange));
    assert_eq!(game.put(6, 0, 1), Err(PutPlayerError::IndexOutOfBounds));
    assert_eq!(game.put(0, 0, 1), Ok(()));
    assert_eq!(game.put(0, 0, 0), Err(PutPlayerError::PositionNotEmpty));
    assert_eq!(game.get(0, 0), Some(&Tile::Player(1)));
    assert_eq!(game.get(0, 6), None);
    for y in 1..4 {
        assert_eq!(game.winner(), GameState::InProgress);
        assert_eq!(game.put(0, y, 1), Ok(()));
    }
    assert_eq!(game.winner(), GameState::Winner(1));
    assert_eq!(Game::new(3, 3, 0, 2).err(), Some(NewGameError::ImpossibleWinLength));
    assert_eq!(Game::new(0, 10, 5, 1).err(), Some(NewGameError::InvalidDimensions));
    assert_eq!(Game::new(10, 10, 20, 1).err(), Some(NewGameError::NotEnoughPlayers));
}

#[test]
fn put_full_board_is_a_draw() {
    let mut game = Game::new(6, 6, 4, 2).ok().unwrap();
    for y in 0..6usize {
        for x in 0..6usize {
            assert_eq!(game.put(x, y, (x / 2 + y) % 2), Ok(()));
        }
    }
    assert_eq!(game.winner(), GameState::Draw);
}

#[test]
fn create() {
    assert!(match TurnGame::create(6, 6, 4, 2) {
        Ok(_) => true,
        _ => false,
    });

    assert!(match TurnGame::create(2, 6, 3, 2) {
        Err(CreateGameError::DimensionTooSmall) => true,
        _ => false,
    });

    assert!(match TurnGame::create(6, 2, 3, 2) {
        Err(CreateGameError::DimensionTooSmall) => true,
        _ => false,
    });

    assert!(match TurnGame::create(6, 6, 2, 2) {
        Err(CreateGameError::GoalTooSmall) => true,
        _ => false,
    });

    assert!(match TurnGame::create(6, 6, 7, 2) {
        Err(CreateGameError::GoalTooLarge) => true,
        _ => false,
    });

    assert!(match TurnGame::create(6, 6, 4, 0) {
        Err(CreateGameError::TooFewPlayers) => true,
        _ => false,
    });
}

#[test]
fn default() {
    let game = TurnGame::default();
    assert_eq!(game.get_width(), 6);
    assert_eq!(game.get_height(), 6);
    assert_eq!(game.get_player_count(), 2);
    assert_eq!(game.get_goal(), 4);
}

#[test]
fn next_turn() {
    {
        let mut game = TurnGame::default();
        assert_eq!(game.get_turn(), 0);
        game.next_turn();
        assert_eq!(game.get_turn(), 1);
        game.next_turn();
        assert_eq!(game.get_turn(), 0);
    }

    {
        let mut game = TurnGame::new(6, 6, 4, 4);
        assert_eq!(game.get_turn(), 0);
        game.next_turn();
        assert_eq!(game.get_turn(), 1);
        game.next_turn();
        assert_eq!(game.get_turn(), 2);
        game.next_turn();
        assert_eq!(game.get_turn(), 3);
        game.next_turn();
        assert_eq!(game.get_turn(), 0);
    }
}

#[test]
fn place_move_on_turn_game() {
    let mut game = TurnGame::default();
    assert_eq!(game.place_move(1, 2), Ok(()));
    assert_eq!(game.get_tile(1, 2), Some(&Tile::Player(0)));
    assert_eq!(game.get_turn(), 1);
    assert_eq!(game.place_move(1, 2), Err(PlaceMoveError::TileNotEmpty));
    assert_eq!(game.place_move(9, 2), Err(PlaceMoveError::PositionOutOfRange));
    assert_eq!(game.get_turn(), 1);
}
