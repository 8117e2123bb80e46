//! The renderer: maps the glyph geometry, the battery snapshot and the blink
//! offset to a per-cell draw plan plus a status line, and raises the blink
//! reset flag when the sweep has reached the glyph's trailing edge. This is
//! the only place per-cell glyph and colour decisions are made; an external
//! writer turns the plan into terminal escape sequences.

use vstd::prelude::*;
use crate::blink::BlinkState;
use crate::text::{decimal_string, spec_decimal};
use vstd::arithmetic::div_mod::lemma_fundamental_div_mod_converse;

verus! {

/// ANSI colour index of the top and bottom walls (white).
pub const WALL_COLOUR: u8 = 15;

/// ANSI colour index of a blink-sweep cell (cyan).
pub const BLINK_COLOUR: u8 = 14;

/// ANSI colour index of a blank cell (black).
pub const BLANK_COLOUR: u8 = 0;

/// What a cell of the draw plan shows: a horizontal wall of the glyph, a
/// filled cell, or a blank that erases whatever was drawn there before.
#[derive(Clone, Copy, PartialEq, Eq, Structural, Debug)]
pub enum CellGlyph {
    Wall,
    Cell,
    Blank,
}

/// One cell of the draw plan: an absolute terminal position, the glyph to
/// draw there and its ANSI colour index.
#[derive(Clone, Copy, PartialEq, Eq, Structural, Debug)]
pub struct DrawCell {
    pub col: u16,
    pub row: u16,
    pub glyph: CellGlyph,
    pub colour: u8,
}

/// What the external battery collaborator reports each tick: the charge
/// percentage rounded to an integer, whether the battery is charging, and a
/// human-readable label of the charging state for the status line.
pub struct BatterySnapshot {
    pub charge_percent: u16,
    pub charging: bool,
    pub display_text: String,
}

/// The draw plan for one tick: the glyph cells in column-major order, and a
/// status line to write at `(status_col, status_row)` after blanking
/// `clear_width` columns there, erasing any previous longer status text.
pub struct DrawPlan {
    pub cells: Vec<DrawCell>,
    pub status: String,
    pub status_col: u16,
    pub status_row: u16,
    pub clear_width: u16,
}

/// Colour of a filled cell: the glyph width divides into five equal zones,
/// red, then yellow twice, then green twice, from left to right. A column
/// beyond the fifth zone (impossible while the width is a multiple of 5)
/// falls back to a null colour.
pub open spec fn spec_cell_colour(x: u16, x_size: u16) -> u8 {
    let zone = x as int / (x_size as int / 5);
    if zone == 0 {
        9
    } else if 1 <= zone <= 2 {
        11
    } else if 3 <= zone <= 4 {
        10
    } else {
        0
    }
}

/// Default red-yellow-green colour theme for the battery cells.
pub fn cell_colour(x: u16, x_size: u16) -> (c: u8)
    requires
        x_size >= 5,
    ensures
        c == spec_cell_colour(x, x_size),
{
    let zone: u16 = x / (x_size / 5);
    if zone == 0 {
        9
    } else if zone <= 2 {
        11
    } else if zone <= 4 {
        10
    } else {
        0
    }
}

/// The first and last rows of the glyph are its walls.
pub open spec fn spec_is_wall(height: u16, y: u16) -> bool {
    y == 0 || y == height - 1
}

/// A cell is blank when it lies beyond both the charge fill and the blink
/// sweep: at least `blink` columns past the fill edge.
pub open spec fn spec_is_blank(width: u16, percent: u16, blink: u16, x: u16) -> bool {
    x >= blink && 100 * (x - blink) > percent * width
}

/// A cell lies beyond the raw charge fill.
pub open spec fn spec_is_beyond_fill(width: u16, percent: u16, x: u16) -> bool {
    100 * x > percent * width
}

/// The cell drawn at glyph column `x`, row `y`: a wall on the first and last
/// rows; a blank beyond both fill and sweep; a blink-coloured cell beyond the
/// fill but within the sweep's reach; otherwise a zone-coloured fill cell.
pub open spec fn spec_cell(
    width: u16,
    height: u16,
    percent: u16,
    blink: u16,
    anchor_col: u16,
    anchor_row: u16,
    x: u16,
    y: u16,
) -> DrawCell {
    let glyph = if spec_is_wall(height, y) {
        CellGlyph::Wall
    } else if spec_is_blank(width, percent, blink, x) {
        CellGlyph::Blank
    } else {
        CellGlyph::Cell
    };
    let colour = if spec_is_wall(height, y) {
        WALL_COLOUR
    } else if spec_is_blank(width, percent, blink, x) {
        BLANK_COLOUR
    } else if spec_is_beyond_fill(width, percent, x) {
        BLINK_COLOUR
    } else {
        spec_cell_colour(x, width)
    };
    DrawCell { col: (anchor_col + x) as u16, row: (anchor_row + y) as u16, glyph, colour }
}

/// The renderer raises the blink reset flag exactly when the glyph's last
/// column holds a blink-sweep cell on some interior row: the sweep has
/// reached the trailing edge and must restart on the next tick.
pub open spec fn spec_reset_triggered(width: u16, height: u16, percent: u16, blink: u16) -> bool {
    &&& width >= 1
    &&& height >= 3
    &&& !spec_is_blank(width, percent, blink, (width - 1) as u16)
    &&& spec_is_beyond_fill(width, percent, (width - 1) as u16)
}

/// The status line under the glyph: the charge percentage in decimal,
/// followed by the charging-state label.
pub open spec fn spec_status(percent: u16, label: Seq<char>) -> Seq<char> {
    spec_decimal(percent as nat) + "% - "@ + label
}

/// Produce the draw plan for one tick from the glyph geometry, its anchor,
/// the battery snapshot and the current blink state.
///
/// With the sentinel geometry `(0, 0)` the plan is empty and the blink state
/// untouched: the caller skips drawing for this tick. Otherwise the plan
/// holds one cell for every glyph position, in column-major order, each as
/// `spec_cell` gives it for the blink offset read at entry; the status line
/// carries the percentage and the snapshot's label; and the blink reset flag
/// is raised exactly when the sweep reaches the glyph's trailing edge
/// (`spec_reset_triggered`), a one-shot request consumed by the next
/// `BlinkState::increment`. Rendering twice with equal inputs yields equal
/// plans: the flag saturates rather than counts.
pub fn render(
    geometry: (u16, u16),
    anchor: (u16, u16),
    snapshot: &BatterySnapshot,
    blink: &mut BlinkState,
) -> (plan: DrawPlan)
    requires
        !(geometry.0 == 0 && geometry.1 == 0) ==> geometry.0 >= 5,
        !(geometry.0 == 0 && geometry.1 == 0) ==> anchor.0 + geometry.0 <= u16::MAX && anchor.1
            + geometry.1 + 1 <= u16::MAX,
    ensures
        final(blink).val == old(blink).val,
        final(blink).max == old(blink).max,
        final(blink).custom == old(blink).custom,
        geometry.0 == 0 && geometry.1 == 0 ==> plan.cells@ =~= Seq::<DrawCell>::empty()
            && plan.status@ =~= Seq::<char>::empty() && plan.status_col == 0 && plan.status_row
            == 0 && plan.clear_width == 0 && final(blink).reset == old(blink).reset,
        !(geometry.0 == 0 && geometry.1 == 0) ==> {
            &&& plan.cells@.len() == geometry.0 as int * geometry.1 as int
            &&& (forall|i: int|
                0 <= i < plan.cells@.len() ==> plan.cells@[i] == spec_cell(
                    geometry.0,
                    geometry.1,
                    snapshot.charge_percent,
                    old(blink).val,
                    anchor.0,
                    anchor.1,
                    (i / geometry.1 as int) as u16,
                    (i % geometry.1 as int) as u16,
                ))
            &&& plan.status@ == spec_status(snapshot.charge_percent, snapshot.display_text@)
            &&& plan.status_col == anchor.0
            &&& plan.status_row == anchor.1 + geometry.1 + 1
            &&& plan.clear_width == geometry.0
            &&& final(blink).reset == (old(blink).reset || spec_reset_triggered(
                geometry.0,
                geometry.1,
                snapshot.charge_percent,
                old(blink).val,
            ))
        },
{
    let batt_width: u16 = geometry.0;
    let batt_height: u16 = geometry.1;
    if batt_width == 0 && batt_height == 0 {
        return DrawPlan {
            cells: Vec::new(),
            status: String::new(),
            status_col: 0,
            status_row: 0,
            clear_width: 0,
        };
    }
    let perc: u16 = snapshot.charge_percent;

    let mut cells: Vec<DrawCell> = Vec::new();
    proof {
        let pw: int = perc as int * batt_width as int;
        assert(pw < 0x1_0000_0000) by (nonlinear_arith)
            requires
                pw == perc as int * batt_width as int,
                perc <= 0xffff,
                batt_width <= 0xffff;
        assert(cells@.len() == 0 * batt_height as int);
    }
    let threshold: u32 = (perc as u32) * (batt_width as u32);
    for x in 0..batt_width
        invariant
            anchor.0 + batt_width <= u16::MAX,
            anchor.1 + batt_height + 1 <= u16::MAX,
            batt_width >= 5,
            cells@.len() == x as int * batt_height as int,
            forall|i: int|
                0 <= i < cells@.len() ==> cells@[i] == spec_cell(
                    batt_width,
                    batt_height,
                    perc,
                    old(blink).val,
                    anchor.0,
                    anchor.1,
                    (i / batt_height as int) as u16,
                    (i % batt_height as int) as u16,
                ),
            blink.val == old(blink).val,
            blink.max == old(blink).max,
            blink.custom == old(blink).custom,
            blink.reset == (old(blink).reset || (x == batt_width && spec_reset_triggered(
                batt_width,
                batt_height,
                perc,
                old(blink).val,
            ))),
            perc == snapshot.charge_percent,
            threshold == perc as int * batt_width as int,
    {
        for y in 0..batt_height
            invariant
                anchor.0 + batt_width <= u16::MAX,
                anchor.1 + batt_height + 1 <= u16::MAX,
                batt_width >= 5,
                x < batt_width,
                cells@.len() == x as int * batt_height as int + y as int,
                forall|i: int|
                    0 <= i < cells@.len() ==> cells@[i] == spec_cell(
                        batt_width,
                        batt_height,
                        perc,
                        old(blink).val,
                        anchor.0,
                        anchor.1,
                        (i / batt_height as int) as u16,
                        (i % batt_height as int) as u16,
                    ),
                blink.val == old(blink).val,
                blink.max == old(blink).max,
                blink.custom == old(blink).custom,
                blink.reset == (old(blink).reset || (x + 1 == batt_width && y >= 2
                    && spec_reset_triggered(batt_width, batt_height, perc, old(blink).val))),
                perc == snapshot.charge_percent,
                threshold == perc as int * batt_width as int,
        {
            let blink_val: u16 = blink.get_value();
            let cell: (CellGlyph, u8) = if y == 0 || batt_height - y == 1 {
                (CellGlyph::Wall, WALL_COLOUR)
            } else if x >= blink_val && 100 * ((x - blink_val) as u32) > threshold {
                (CellGlyph::Blank, BLANK_COLOUR)
            } else if 100 * (x as u32) > threshold {
                if x + 1 >= batt_width {
                    blink.set_reset();
                }
                (CellGlyph::Cell, BLINK_COLOUR)
            } else {
                (CellGlyph::Cell, cell_colour(x, batt_width))
            };

            cells.push(
                DrawCell { col: anchor.0 + x, row: anchor.1 + y, glyph: cell.0, colour: cell.1 },
            );
            proof {
                lemma_fundamental_div_mod_converse(
                    x as int * batt_height as int + y as int,
                    batt_height as int,
                    x as int,
                    y as int,
                );
            }
        }
        proof {
            assert((x as int + 1) * batt_height as int == x as int * batt_height as int
                + batt_height as int) by (nonlinear_arith);
        }
    }

    let mut status = decimal_string(perc);
    status.append("% - ");
    status.append(snapshot.display_text.as_str());
    proof {
        assert(status@ =~= spec_status(perc, snapshot.display_text@));
    }

    DrawPlan {
        cells,
        status,
        status_col: anchor.0,
        status_row: anchor.1 + batt_height + 1,
        clear_width: batt_width,
    }
}

/// Law: at full charge no glyph position lies beyond the fill or inside the
/// blink sweep, whatever the blink offset: every non-wall cell of the plan is
/// a zone-coloured fill cell.
pub proof fn lemma_full_charge_all_fill(
    width: u16,
    height: u16,
    blink: u16,
    anchor_col: u16,
    anchor_row: u16,
    x: u16,
    y: u16,
)
    requires
        x < width,
        y < height,
    ensures
        !spec_is_blank(width, 100, blink, x),
        !spec_is_beyond_fill(width, 100, x),
        !spec_is_wall(height, y) ==> spec_cell(
            width,
            height,
            100,
            blink,
            anchor_col,
            anchor_row,
            x,
            y,
        ) == (DrawCell {
            col: (anchor_col + x) as u16,
            row: (anchor_row + y) as u16,
            glyph: CellGlyph::Cell,
            colour: spec_cell_colour(x, width),
        }),
{
}

/// Law: with zero charge and a zero blink offset the first glyph column is
/// still drawn, not blanked: on every interior row it holds a fill cell in
/// the first zone's colour.
pub proof fn lemma_zero_charge_first_column_drawn(
    width: u16,
    height: u16,
    anchor_col: u16,
    anchor_row: u16,
    y: u16,
)
    requires
        width >= 1,
        1 <= y < height - 1,
    ensures
        spec_cell(width, height, 0, 0, anchor_col, anchor_row, 0, y) == (DrawCell {
            col: anchor_col,
            row: (anchor_row + y) as u16,
            glyph: CellGlyph::Cell,
            colour: spec_cell_colour(0, width),
        }),
{
}

} // verus!
