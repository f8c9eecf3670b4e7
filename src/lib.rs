//! A terminal snake game: the board, the snake and the rules of a round.
pub mod direction;
pub mod point;
pub mod snake;
pub mod command;
pub mod game;
