//! A minimal real-time snake game model: a segmented snake moves on a
//! discrete grid, eats food to grow, and the game ends on self-collision or
//! on leaving the grid. The controller gates when the model advances
//! (running / paused / game over); rendering and input live outside.

pub mod controller;
pub mod food;
pub mod grid;
pub mod model;
pub mod rng;
pub mod snake;

pub use controller::SimpleSnake;
pub use food::Food;
pub use model::Model;
pub use snake::Snake;
pub use rng::random_position;

pub use grid::Direction;
pub use grid::Position;
pub use grid::HALF_SPRITE_SIZE;
pub use grid::MAX_FOOD;
pub use grid::MAX_X;
pub use grid::MAX_Y;
pub use grid::MIN_X;
pub use grid::MIN_Y;
pub use grid::SCENE_RANGE_X;
pub use grid::SCENE_RANGE_Y;
pub use grid::SPRITE_SIZE;
