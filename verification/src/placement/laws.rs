//! What holds of the window's position on every screen.

use vstd::prelude::*;
use crate::placement::{
    BOTTOM_OVERSHOOT, MAX_SCREEN_HEIGHT, MAX_SCREEN_WIDTH, PlacementResult, RIGHT_PADDING,
    WINDOW_HEIGHT, WINDOW_WIDTH, placement_fits, placement_of, placement_x, placement_y,
};

verus! {

/// The window has a position exactly on the screens that are at most
/// `MAX_SCREEN_WIDTH` wide and `MAX_SCREEN_HEIGHT` tall.
pub proof fn lemma_fits_within_limits(screen_width: u32, screen_height: u32)
    ensures
        placement_fits(screen_width as int, screen_height as int) <==> screen_width
            <= MAX_SCREEN_WIDTH && screen_height <= MAX_SCREEN_HEIGHT,
        placement_of(screen_width as int, screen_height as int) is Some <==> screen_width
            <= MAX_SCREEN_WIDTH && screen_height <= MAX_SCREEN_HEIGHT,
{
}

/// On a screen of at least 490 by 350 pixels the window lies at
/// `(screen_width - 490, screen_height - 350)`, and neither coordinate is
/// negative. Both are signed 32-bit coordinates, and the window has that
/// position, as long as the screen is within the two limits.
pub proof fn lemma_placement_on_large_screens(screen_width: int, screen_height: int)
    requires
        screen_width >= 490,
        screen_height >= 350,
    ensures
        placement_x(screen_width) == screen_width - 490,
        placement_y(screen_height) == screen_height - 350,
        placement_x(screen_width) >= 0,
        placement_y(screen_height) >= 0,
        placement_fits(screen_width, screen_height) <==> screen_width <= MAX_SCREEN_WIDTH
            && screen_height <= MAX_SCREEN_HEIGHT,
        placement_fits(screen_width, screen_height) ==> (placement_of(
            screen_width,
            screen_height,
        ) matches Some(p) && p.x == screen_width - 490 && p.y == screen_height - 350),
{
}

/// The position is never clamped: a coordinate is negative exactly when the
/// screen is narrower than 490 pixels, or lower than 350.
pub proof fn lemma_placement_is_not_clamped(screen_width: u32, screen_height: u32)
    requires
        screen_width <= MAX_SCREEN_WIDTH,
        screen_height <= MAX_SCREEN_HEIGHT,
    ensures
        placement_of(screen_width as int, screen_height as int) matches Some(p) && (p.x < 0
            <==> screen_width < 490) && (p.y < 0 <==> screen_height < 350),
{
}

/// The window's right edge stays `RIGHT_PADDING` pixels left of the screen's
/// right edge, and its bottom edge `BOTTOM_OVERSHOOT` pixels below the
/// screen's bottom edge.
pub proof fn lemma_placement_keeps_margins(
    screen_width: u32,
    screen_height: u32,
    p: PlacementResult,
)
    requires
        placement_of(screen_width as int, screen_height as int) == Some(p),
    ensures
        p.x + WINDOW_WIDTH + RIGHT_PADDING == screen_width,
        p.y + WINDOW_HEIGHT == screen_height + BOTTOM_OVERSHOOT,
{
}

/// The position depends on the screen size alone: the same size gives the same
/// position, and two screens of different size never share one.
pub proof fn lemma_placement_is_a_function_of_the_screen(
    first_width: u32,
    first_height: u32,
    second_width: u32,
    second_height: u32,
)
    ensures
        first_width == second_width && first_height == second_height ==> placement_of(
            first_width as int,
            first_height as int,
        ) == placement_of(second_width as int, second_height as int),
        placement_of(first_width as int, first_height as int) is Some && placement_of(
            first_width as int,
            first_height as int,
        ) == placement_of(second_width as int, second_height as int) ==> first_width
            == second_width && first_height == second_height,
{
}

} // verus!
