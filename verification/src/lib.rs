//! A discrete-time falling-sand cellular automaton over a fixed 2-D grid.
//!
//! Each cell holds at most one particle of a material; every tick recomputes
//! the grid by applying per-material movement rules (gravity, buoyancy,
//! viscosity-limited flow, density-based displacement, and probabilistic
//! combustion and dissipation for fire and smoke).

pub mod behavior;
pub mod brush;
pub mod config;
pub mod grid;
pub mod laws;
pub mod material;
pub mod particle;
pub mod render;
pub mod rng;
pub mod scan;
pub mod state;
pub mod tick;
