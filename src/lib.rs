pub mod geometry;
pub mod target;
pub mod fixture;
pub mod targeting;
