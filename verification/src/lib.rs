//! Entity simulation core of a small 2D arcade shooter: geometry and overlap
//! tests, the closed set of entity variants with their per-frame update
//! rules, the pairwise hit resolver, and the frame reconciliation step that
//! folds spawn and delete actions into the next frame's entity list.
pub mod asteroid;
pub mod bullet;
pub mod entity;
pub mod events;
pub mod explosion;
pub mod geometry;
pub mod ship;
pub mod sine;
pub mod rng;
pub mod sprites;
pub mod world;
