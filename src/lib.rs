//! Logic of a small physics arena: a player box steered by the arrow keys
//! inside a ring of fixed boxes on a floor grid.
pub mod arena;
pub mod config;
pub mod input;
