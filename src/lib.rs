//! A tabletop scene: a camera, a tiled table and a batch of draggable items, set up in phases
//! and moved by key and pointer events, over an arena of entities named by index.

pub mod laws;
pub mod movement;
pub mod pointer;
mod random;
pub mod world;
