pub mod tiles;
pub mod player;
pub mod unit;
pub mod builds;
pub mod pathfinding;
