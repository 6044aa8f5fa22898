//! Deterministic simulation core of a grid-based snake game.
//!
//! The library owns the authoritative game state: grid-based movement,
//! growth on food, boundary and self-collision detection, and food
//! placement.  A host (rendering/input layer) drives it by calling
//! [`SnakeGame::tick`] once per time step and
//! [`SnakeGame::change_direction`] after each directional input, and
//! reads the state back through the accessors.  Randomness enters only
//! through the [`RngSource`] capability, so a host may supply the
//! thread-local generator ([`ThreadRandom`]) or a scripted source.

mod direction;
mod game;
pub mod laws;
mod rng;

pub use direction::Direction;
pub use game::Point;
pub use game::SnakeGame;
pub use rng::RngSource;
pub use rng::ThreadRandom;
