//! Window placement near the bottom-right corner of the primary display.
//!
//! All coordinates are physical pixels. Screen sizes are unsigned, window
//! positions are signed: on a small screen the window's top-left corner lies
//! left of, or above, the screen's origin, and it is left there.

use vstd::prelude::*;

pub mod laws;

verus! {

/// Width of the application window.
pub const WINDOW_WIDTH: i32 = 290;

/// Height of the application window.
pub const WINDOW_HEIGHT: i32 = 380;

/// Gap between the window's right edge and the right edge of the screen.
pub const RIGHT_PADDING: i32 = 200;

/// How far the window's bottom edge reaches below the bottom edge of the screen.
pub const BOTTOM_OVERSHOOT: i32 = 30;

/// Widest screen for which the window's `x` is still a signed 32-bit coordinate.
pub const MAX_SCREEN_WIDTH: u32 = 2147484137;

/// Tallest screen for which the window's `y` is still a signed 32-bit coordinate.
pub const MAX_SCREEN_HEIGHT: u32 = 2147483997;

/// Top-left corner of the window, in physical screen coordinates.
#[derive(Clone, Copy, Debug, PartialEq, Eq, Structural)]
pub struct PlacementResult {
    pub x: i32,
    pub y: i32,
}

/// Horizontal position of the window on a screen of the given width.
pub open spec fn placement_x(screen_width: int) -> int {
    screen_width - WINDOW_WIDTH - RIGHT_PADDING
}

/// Vertical position of the window on a screen of the given height.
pub open spec fn placement_y(screen_height: int) -> int {
    screen_height - WINDOW_HEIGHT + BOTTOM_OVERSHOOT
}

/// Whether `v` can be handed to the host as a pixel coordinate.
pub open spec fn is_coordinate(v: int) -> bool {
    i32::MIN <= v <= i32::MAX
}

/// Whether both coordinates of the window's position are pixel coordinates.
pub open spec fn placement_fits(screen_width: int, screen_height: int) -> bool {
    is_coordinate(placement_x(screen_width)) && is_coordinate(placement_y(screen_height))
}

/// The window's position on a screen of the given size, where it has one.
pub open spec fn placement_of(screen_width: int, screen_height: int) -> Option<PlacementResult> {
    if placement_fits(screen_width, screen_height) {
        Some(
            PlacementResult {
                x: placement_x(screen_width) as i32,
                y: placement_y(screen_height) as i32,
            },
        )
    } else {
        None
    }
}

/// Computes where the window goes on a screen of the given size.
///
/// The result is never clamped. It is `None` only for screens so large that
/// the position is no signed 32-bit coordinate.
pub fn compute_placement(screen_width: u32, screen_height: u32) -> (result: Option<PlacementResult>)
    ensures
        result == placement_of(screen_width as int, screen_height as int),
{
    if screen_width > MAX_SCREEN_WIDTH || screen_height > MAX_SCREEN_HEIGHT {
        return None;
    }
    let x: i64 = screen_width as i64 - WINDOW_WIDTH as i64 - RIGHT_PADDING as i64;
    let y: i64 = screen_height as i64 - WINDOW_HEIGHT as i64 + BOTTOM_OVERSHOOT as i64;
    Some(PlacementResult { x: x as i32, y: y as i32 })
}

} // verus!
