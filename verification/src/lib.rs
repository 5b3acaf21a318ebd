//! Verified game logic of a small 2D physics playground: sprite animation,
//! the queue of objects that wait for a collider, outline meshes for
//! colliders, polygons drawn with the mouse, walking input and the
//! membership of the game's system sets.

pub mod anim;
pub mod outline;
pub mod schedule;
pub mod my_egui;
pub mod level;
pub mod player;
pub mod misc;
pub mod save_load;
