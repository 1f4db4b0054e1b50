//! Directional input buffering, movement and sprite animation for a
//! tile-based game, with every rule stated as a contract and proved.
//!
//! Key events go into an [`input::InputBuffer`], which resolves them to one
//! velocity per tick: the newest held key wins, and opposite keys cancel.
//! The systems then steer, move and animate the entities of a table
//! ([`entity::dispatch`]), and [`renderer::render`] lays out what is drawn.
//! Nothing here touches a window, a file or a clock, so a caller can drive
//! the game from any event source and draw it with any backend.

pub mod animator;
pub mod components;
pub mod constants;
pub mod entity;
pub mod frames;
pub mod geometry;
pub mod grid;
pub mod history;
pub mod input;
pub mod keyboard;
pub mod physics;
pub mod renderer;
pub mod tilemap;
