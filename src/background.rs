use vstd::prelude::*;

use crate::face::draw_below;

verus! {

/// The tile left empty in the star field.
pub const BLANK_TILE: u16 = 1023;

/// The tile at one place of the star field: blank 30 times in 32, else one
/// of the 64 star tiles.
pub open spec fn star_tile_for(blank_draw: i32, tile_draw: i32) -> u16 {
    if (blank_draw as int) % 32 < 30 {
        BLANK_TILE
    } else {
        ((tile_draw as int) % 64) as u16
    }
}

pub fn star_tile(blank_draw: i32, tile_draw: i32) -> (r: u16)
    ensures
        r == star_tile_for(blank_draw, tile_draw),
{
    if draw_below(blank_draw, 32) < 30 {
        BLANK_TILE
    } else {
        draw_below(tile_draw, 64) as u16
    }
}

/// The vertical offset a star field starts at.
pub fn initial_scroll(draw: i32) -> (r: u16)
    ensures
        r as int == (draw as int) % 8,
{
    draw_below(draw, 8) as u16
}

/// Frames between steps of the near star field.
pub const NEAR_SCROLL_FRAMES: u32 = 2;

/// Frames between steps of the far star field.
pub const FAR_SCROLL_FRAMES: u32 = 3;

/// Counts the frames until each of the two star fields scrolls a pixel.
#[derive(Clone, Copy, PartialEq, Eq, Debug, Structural)]
pub struct ScrollTimers {
    pub background1_timer: u32,
    pub background2_timer: u32,
}

impl ScrollTimers {
    pub fn new() -> (r: Self)
        ensures
            r.background1_timer == 0,
            r.background2_timer == 0,
    {
        ScrollTimers { background1_timer: 0, background2_timer: 0 }
    }

    /// One frame: a field whose timer is zero scrolls and its timer restarts;
    /// then both timers count down. Returns which fields scroll.
    pub fn update(&mut self) -> (r: (bool, bool))
        ensures
            r.0 == (old(self).background1_timer == 0),
            r.1 == (old(self).background2_timer == 0),
            final(self).background1_timer == (if r.0 {
                NEAR_SCROLL_FRAMES as int
            } else {
                old(self).background1_timer as int
            }) - 1,
            final(self).background2_timer == (if r.1 {
                FAR_SCROLL_FRAMES as int
            } else {
                old(self).background2_timer as int
            }) - 1,
    {
        let scroll1 = self.background1_timer == 0;
        if scroll1 {
            self.background1_timer = NEAR_SCROLL_FRAMES;
        }
        let scroll2 = self.background2_timer == 0;
        if scroll2 {
            self.background2_timer = FAR_SCROLL_FRAMES;
        }
        self.background1_timer -= 1;
        self.background2_timer -= 1;
        (scroll1, scroll2)
    }
}

} // verus!
