//! The fixed 16-entry byte-to-RGB palette the frame builder samples.
//! Entries 2 through 7 are reused for 9 through 14, and every byte above the
//! table falls back to the last color.

use vstd::prelude::*;

verus! {

/// The red, green and blue components assigned to a palette byte.
pub open spec fn spec_rgb(byte: u8) -> (u8, u8, u8) {
    match byte {
        0 => (0, 0, 0),  // black
        1 => (255, 255, 255),  // white
        2 | 9 => (128, 128, 128),  // grey
        3 | 10 => (255, 0, 0),  // red
        4 | 11 => (0, 255, 0),  // green
        5 | 12 => (0, 0, 255),  // blue
        6 | 13 => (255, 0, 255),  // magenta
        7 | 14 => (255, 255, 0),  // yellow
        _ => (0, 255, 255),  // cyan
    }
}

/// Maps a palette byte to its red, green and blue components.
pub fn get_rgb_color(byte: u8) -> (r: (u8, u8, u8))
    ensures
        r == spec_rgb(byte),
{
    match byte {
        0 => (0, 0, 0),
        1 => (255, 255, 255),
        2 | 9 => (128, 128, 128),
        3 | 10 => (255, 0, 0),
        4 | 11 => (0, 255, 0),
        5 | 12 => (0, 0, 255),
        6 | 13 => (255, 0, 255),
        7 | 14 => (255, 255, 0),
        _ => (0, 255, 255),
    }
}

} // verus!
