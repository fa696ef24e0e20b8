//! Core logic of a minimal 2D game prototype: a single player entity moves
//! under WASD input inside a bounded debug box, and an isometric transform
//! maps world coordinates to screen coordinates.
//!
//! All coordinates are fixed-point integers in millipixels (1000 per pixel),
//! so the whole core is plain integer arithmetic. The windowing, keyboard
//! polling and drawing live outside the library and exchange plain values
//! with it.

pub mod game;
pub mod input;
pub mod iso;
pub mod player;
pub mod render;
pub mod units;
