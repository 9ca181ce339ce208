//! A grid-based first-person dungeon view: a 2-D occupancy map, a player
//! that moves and turns on its cells, and a renderer that projects the
//! player's visibility cone onto a sprite atlas and emits an ordered list
//! of draw operations for a presentation layer to paint.

use vstd::prelude::*;

pub mod atlas;
pub mod map;
pub mod player;
pub mod render;

verus! {

/// Pixel width of the off-screen viewport the draw operations target.
pub const VIEWPORT_WIDTH: i32 = 320;

/// Pixel height of the off-screen viewport the draw operations target.
pub const VIEWPORT_HEIGHT: i32 = 256;

} // verus!
