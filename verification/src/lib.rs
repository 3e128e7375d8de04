//! Game-of-Life simulation and viewport engine: a toroidal grid with the
//! classic generation rule, a pan/zoom viewport over it, a Bresenham-style
//! line rasterizer for drag gestures, and a polling simulation clock.

pub mod clock;
pub mod game;
pub mod game_event;
pub mod grid;
pub mod raster;
pub mod viewport;
