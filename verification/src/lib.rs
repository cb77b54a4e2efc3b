//! A tile-grid world model for a small real-time roguelike: window layout,
//! the grid of tiles, entity movement, key polling, the per-frame tick and
//! the list of paint operations a frame produces.
//!
//! Everything here works on plain values. Opening a window, reading the
//! keyboard and painting are left to the program that uses the library.

pub mod error;
pub mod tile;
pub mod layout;
pub mod grid;
pub mod entity;
pub mod input;
pub mod world;
pub mod render;
