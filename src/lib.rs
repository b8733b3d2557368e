//! A grid snake game: the snake's body and heading, the game's state machine
//! (timer, food, collisions, input) and the shapes that a frame shows.
pub mod game;
pub mod render;
pub mod snake;
