//! Battery glyph geometry, derived afresh each tick from the current
//! terminal dimensions. A terminal narrower than 10 columns or shorter than
//! 7 rows cannot hold the glyph: the sentinel `(0, 0)` tells the caller to
//! skip drawing for that tick and retry after the next resize.

use vstd::prelude::*;

verus! {

/// A terminal is large enough for the glyph when it is at least 10 columns
/// wide and 7 rows tall.
pub open spec fn valid_term_size(term_width: u16, term_height: u16) -> bool {
    term_width >= 10 && term_height >= 7
}

/// Glyph width for a terminal of the given width: the terminal width is
/// rounded down to a multiple of 5, and a margin of whole 5-column slots
/// (more on wider terminals) is subtracted so the glyph never touches the
/// terminal edge.
pub open spec fn spec_glyph_width(term_width: u16) -> int {
    if term_width <= 9 {
        0
    } else if term_width <= 24 {
        (term_width / 5 - 1) * 5
    } else if term_width <= 49 {
        (term_width / 5 - 2) * 5
    } else if term_width <= 99 {
        (term_width / 5 - 5) * 5
    } else {
        (term_width / 5 - 10) * 5
    }
}

/// Glyph height for a terminal of the given height: short terminals scale
/// with the available rows (4 rows are reserved for borders and the status
/// line); taller ones use a fixed height for layout stability.
pub open spec fn spec_glyph_height(term_height: u16) -> int {
    if term_height <= 6 {
        0
    } else if term_height <= 10 {
        term_height - 4
    } else if term_height <= 25 {
        7
    } else if term_height <= 50 {
        8
    } else if term_height <= 100 {
        9
    } else {
        10
    }
}

/// Battery glyph dimensions for the given terminal dimensions.
///
/// Returns the sentinel `(0, 0)` when the terminal is too thin or too short
/// (width below 10 or height below 7); the caller must then skip rendering
/// for this tick. Otherwise the width is a positive multiple of 5 strictly
/// below the terminal width, and the height is at least 3 and strictly below
/// the terminal height.
pub fn battery_size(term_width: u16, term_height: u16) -> (r: (u16, u16))
    ensures
        !valid_term_size(term_width, term_height) ==> r == (0u16, 0u16),
        valid_term_size(term_width, term_height) ==> r.0 == spec_glyph_width(term_width),
        valid_term_size(term_width, term_height) ==> r.1 == spec_glyph_height(term_height),
        r.0 % 5 == 0,
        valid_term_size(term_width, term_height) ==> 5 <= r.0 < term_width,
        valid_term_size(term_width, term_height) ==> 3 <= r.1 < term_height,
{
    if term_width <= 9 || term_height <= 6 {
        return (0, 0);
    }

    let x: u16 = if term_width <= 24 {
        (term_width / 5 - 1) * 5
    } else if term_width <= 49 {
        (term_width / 5 - 2) * 5
    } else if term_width <= 99 {
        (term_width / 5 - 5) * 5
    } else {
        (term_width / 5 - 10) * 5
    };

    let y: u16 = if term_height <= 10 {
        term_height - 4
    } else if term_height <= 25 {
        7
    } else if term_height <= 50 {
        8
    } else if term_height <= 100 {
        9
    } else {
        10
    };

    (x, y)
}

/// Centre of the terminal, by integer division.
fn terminal_centre(term_width: u16, term_height: u16) -> (r: (u16, u16))
    ensures
        r == (term_width / 2, term_height / 2),
{
    (term_width / 2, term_height / 2)
}

/// Position of the top-left corner of the battery glyph: the terminal centre
/// shifted up and left by half the glyph dimensions, with one extra column to
/// visually centre the left wall.
///
/// Uses the same size snapshot as `battery_size`, so the anchor always agrees
/// with the glyph dimensions derived from that snapshot. Must not be called
/// when the terminal is under the minimum size.
pub fn battery_top_left(term_width: u16, term_height: u16) -> (r: (u16, u16))
    requires
        valid_term_size(term_width, term_height),
    ensures
        r.0 == term_width / 2 - spec_glyph_width(term_width) / 2 + 1,
        r.1 == term_height / 2 - spec_glyph_height(term_height) / 2,
{
    let centre: (u16, u16) = terminal_centre(term_width, term_height);
    let size: (u16, u16) = battery_size(term_width, term_height);

    (centre.0 - size.0 / 2 + 1, centre.1 - size.1 / 2)
}

} // verus!
