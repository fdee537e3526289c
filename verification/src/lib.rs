//! Simulation core of a grid-based snake game.
//!
//! The library owns the world geometry, the snake's body and heading, reward
//! placement, growth, and the game-status state machine. Rendering, input
//! wiring and tick scheduling are left to the host; the host drives the core
//! through [`World::set_snake_direction`] and [`World::step`].

pub mod grid;
pub mod snake;
pub mod world;

pub use grid::Direction;
pub use grid::Grid;
pub use world::GameStatus;
pub use world::World;
pub use world::WorldModel;
