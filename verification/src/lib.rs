//! A minimal turn-based grid game core: a fixed tile map, a small store of
//! entities with optional components, blocking-collision movement driven by
//! single-key input, and deterministic composition of a character frame.
//!
//! Terminal input and output are left to the surrounding program; this crate
//! holds the verified game logic on plain values.

pub mod dir;
pub mod driver;
pub mod grid;
pub mod input;
pub mod movement;
pub mod render;
pub mod tile;
pub mod world;
