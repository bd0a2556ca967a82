//! A deterministic simulation of sprites that fall, bounce and reflect inside
//! a display. The host sets it up once, advances it by one tick per frame and
//! asks it what to draw; the simulation itself touches nothing outside its
//! own state. All arithmetic is fixed-point and proved to stay in range.

pub mod bounds;
pub mod entity;
pub mod fixed;
pub mod game;
pub mod random;

pub use entity::{Entity, Metrics};
pub use fixed::Fixed;
pub use game::{add_items, draw, init, move_items, update, Frame, GameState, Sprite};
