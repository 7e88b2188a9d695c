pub mod board;
pub mod game_interface;
pub mod core_game;
pub mod game;
pub mod cpu;
pub mod cpu_game;
pub mod terminal;
