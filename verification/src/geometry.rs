//! Plain integer geometry: points, rectangles, the sprite-sheet region of a
//! frame, and the map from world space to screen space.

use vstd::prelude::*;

verus! {

/// Pixel width of one frame in the sprite sheet.
pub const TILE_WIDTH: u32 = 64;

/// Pixel height of one frame in the sprite sheet.
pub const TILE_HEIGHT: u32 = 64;

/// A 2D integer point. World-space positions are relative to an arbitrary
/// origin; screen-space positions are pixels on the canvas.
#[derive(Clone, Copy, PartialEq, Eq, Structural, Debug)]
pub struct Point {
    pub x: i32,
    pub y: i32,
}

/// An axis-aligned rectangle: origin plus extent, in pixels.
#[derive(Clone, Copy, PartialEq, Eq, Structural, Debug)]
pub struct Rect {
    pub x: i32,
    pub y: i32,
    pub width: u32,
    pub height: u32,
}

/// The sub-rectangle of the sprite sheet that holds frame `frame`: frames sit
/// left to right in a single row of fixed-size tiles.
pub open spec fn spec_frame_region(frame: int) -> Rect {
    Rect {
        x: (frame * (TILE_WIDTH as int)) as i32,
        y: 0,
        width: TILE_WIDTH,
        height: TILE_HEIGHT,
    }
}

/// Region of the sprite sheet to display for a frame index.
pub fn frame_region(frame: u64) -> (region: Rect)
    requires
        frame < crate::animation::FRAME_COUNT,
    ensures
        region == spec_frame_region(frame as int),
        region.x == frame * TILE_WIDTH,
        region.y == 0,
        region.width == TILE_WIDTH,
        region.height == TILE_HEIGHT,
{
    Rect { x: (frame as i32) * 64, y: 0, width: TILE_WIDTH, height: TILE_HEIGHT }
}

/// Where on the canvas a world-space position lands: the world origin maps to
/// the centre of the canvas.
pub open spec fn spec_screen_position(world: Point, canvas_width: u32, canvas_height: u32) -> Point {
    Point {
        x: (world.x + (canvas_width as int) / 2) as i32,
        y: (world.y + (canvas_height as int) / 2) as i32,
    }
}

/// True when shifting `world` by half the canvas stays within `i32`.
pub open spec fn screen_position_fits(world: Point, canvas_width: u32, canvas_height: u32) -> bool {
    &&& world.x + (canvas_width as int) / 2 <= i32::MAX
    &&& world.y + (canvas_height as int) / 2 <= i32::MAX
}

/// Map a world-space position to screen space.
pub fn screen_position(world: Point, canvas_width: u32, canvas_height: u32) -> (screen: Point)
    requires
        screen_position_fits(world, canvas_width, canvas_height),
    ensures
        screen == spec_screen_position(world, canvas_width, canvas_height),
        screen.x == world.x + canvas_width / 2,
        screen.y == world.y + canvas_height / 2,
{
    let half_w: u32 = canvas_width / 2;
    let half_h: u32 = canvas_height / 2;
    Point { x: world.x + half_w as i32, y: world.y + half_h as i32 }
}

} // verus!
