//! Screen-space widgets and hex-grid placement for a tile-based game front end.
//!
//! The crate holds the integer logic of the user interface: classifying
//! pointer input, laying out label quads, hit-testing buttons and placing
//! hexagonal map cells. Every function carries a machine-checked contract.
//! Rendering, font rasterisation and floating-point conversion are left to
//! the caller.

pub mod types;
pub mod geom;
pub mod gui;
pub mod button;
pub mod manager;
