//! Rules of a block-clearing ball game: the block grid and its rounds, the
//! volley state of the player, the stored high score and the outlines that the
//! frame draws. Ball motion, rendering and input live with the program.

pub mod game;
pub mod geometry;
pub mod grid;
pub mod player;
pub mod score;
