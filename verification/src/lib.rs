//! The decisions of a terminal monitor for Docker containers: what it asks the
//! daemon, how it works out resource usage, and what it shows.

pub mod cache;
pub mod clock;
pub mod collector;
pub mod container;
pub mod monitor;
pub mod round;
pub mod screen;
pub mod size;
pub mod stats;
pub mod text;
