//! A software renderer and movement engine for binary rooms-and-portals
//! levels: BSP visibility traversal, a fixed-point wall/portal rasterizer
//! with per-column occlusion clipping, and a swept-circle collision resolver
//! against wall segments found through a uniform blockmap grid.
//!
//! All world arithmetic is 16.16 fixed point, so every computation the
//! renderer and the collision resolver perform is stated and proved exactly.

pub mod actors;
pub mod bsp;
pub mod camera;
pub mod collision;
pub mod configure;
pub mod data_textures;
pub mod fixed;
pub mod map;
pub mod math;
pub mod render;
pub mod shape;
pub mod types;
pub mod wad;
pub mod window;

use vstd::prelude::*;

verus! {

/// Number of fractional bits carried by a fixed-point value.
pub const FRAC_BITS: u32 = 16;

/// The fixed-point value that stands for 1.0.
pub const FIXED_ONE: i64 = 65536;

} // verus!
