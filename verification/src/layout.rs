//! Layout provider: computes, once at startup, the fixed pixel position of
//! every lamp tile from the window and tile dimensions. Each group sits on
//! one horizontal band with its slots evenly spaced between a left and a
//! right padding margin; the minute-fives band staggers every other slot
//! vertically, and the last slot of a band is pinned to the right margin so
//! rounding drift cannot accumulate at the edge.

use vstd::prelude::*;

verus! {

/// Upper bound on every configured dimension; keeps all coordinate
/// arithmetic comfortably inside `i32`.
pub const MAX_DIMENSION: i32 = 100000;

/// The pixel position of one tile's top-left corner.
#[derive(Clone, Copy, Debug, PartialEq, Eq, Structural)]
pub struct TilePos {
    pub x: i32,
    pub y: i32,
}

/// Construction-time geometry of the clock face.
#[derive(Clone, Copy, Debug, PartialEq, Eq, Structural)]
pub struct LayoutConfig {
    pub window_width: i32,
    pub window_height: i32,
    pub big_tile: i32,
    pub small_tile: i32,
    pub hours_padding: i32,
    pub minutes_padding: i32,
    pub five_minutes_padding: i32,
}

impl LayoutConfig {
    /// Positive dimensions, paddings that leave room between the margins,
    /// and bounds that keep every coordinate inside `i32`.
    pub open spec fn valid(self) -> bool {
        &&& 0 < self.window_width <= MAX_DIMENSION
        &&& 0 < self.window_height <= MAX_DIMENSION
        &&& 0 < self.big_tile <= MAX_DIMENSION
        &&& 0 < self.small_tile <= MAX_DIMENSION
        &&& 0 <= self.hours_padding
        &&& 0 <= self.minutes_padding
        &&& 0 <= self.five_minutes_padding
        &&& 2 * self.hours_padding <= self.window_width
        &&& 2 * self.minutes_padding <= self.window_width
        &&& 2 * self.five_minutes_padding <= self.window_width
    }
}

/// The built-in face geometry: a 1024 x 600 borderless window, 96-pixel big
/// tiles, 48-pixel small tiles, and the three per-group paddings.
pub fn standard_config() -> (cfg: LayoutConfig)
    ensures
        cfg == (LayoutConfig {
            window_width: 1024,
            window_height: 600,
            big_tile: 96,
            small_tile: 48,
            hours_padding: 100,
            minutes_padding: 200,
            five_minutes_padding: 50,
        }),
        cfg.valid(),
{
    LayoutConfig {
        window_width: 1024,
        window_height: 600,
        big_tile: 96,
        small_tile: 48,
        hours_padding: 100,
        minutes_padding: 200,
        five_minutes_padding: 50,
    }
}

/// One sixth of the window height: the vertical band unit the groups are
/// stacked on.
pub open spec fn band_height(cfg: LayoutConfig) -> int {
    cfg.window_height as int / 6
}

/// Horizontal position of slot `i` of a four-slot band: slots step evenly
/// from the left margin, each centered on its footprint (half the tile width
/// subtracted), and the last slot is pinned to the right margin.
pub open spec fn row_slot_x(width: int, padding: int, tile: int, i: int) -> int {
    if i == 3 {
        width - padding - tile / 2
    } else {
        padding + ((width - 2 * padding) / 3) * i - tile / 2
    }
}

/// Horizontal position of slot `i` of the eleven-slot minute-fives band:
/// even steps from the left margin, last slot pinned to the right margin.
pub open spec fn staggered_slot_x(width: int, padding: int, tile: int, i: int) -> int {
    if i == 10 {
        width - padding - tile / 2
    } else {
        padding + ((width - 2 * padding) / 10) * i - tile / 2
    }
}

/// Vertical position of slot `i` of the minute-fives band: every other slot
/// drops by one small-tile height, forming the staggered dual row.
pub open spec fn staggered_slot_y(cfg: LayoutConfig, i: int) -> int {
    band_height(cfg) * 3 + (i % 2) * cfg.small_tile - cfg.small_tile as int / 4
}

/// The five coordinate sets of the face, computed once at startup.
pub struct Layout {
    pub five_hours: Vec<TilePos>,
    pub one_hours: Vec<TilePos>,
    pub five_minutes: Vec<TilePos>,
    pub one_minutes: Vec<TilePos>,
    pub second: TilePos,
}

impl Layout {
    /// Every coordinate of the layout is the one the geometry rules assign
    /// under the given configuration.
    pub open spec fn matches(self, cfg: LayoutConfig) -> bool {
        &&& self.five_hours@.len() == 4
        &&& forall|i: int|
            0 <= i < 4 ==> (#[trigger] self.five_hours@[i]).x as int == row_slot_x(
                cfg.window_width as int,
                cfg.hours_padding as int,
                cfg.big_tile as int,
                i,
            ) && self.five_hours@[i].y == 0
        &&& self.one_hours@.len() == 4
        &&& forall|i: int|
            0 <= i < 4 ==> (#[trigger] self.one_hours@[i]).x as int == row_slot_x(
                cfg.window_width as int,
                cfg.hours_padding as int,
                cfg.big_tile as int,
                i,
            ) && self.one_hours@[i].y as int == band_height(cfg) * 2 - cfg.big_tile as int / 2
        &&& self.five_minutes@.len() == 11
        &&& forall|i: int|
            0 <= i < 11 ==> (#[trigger] self.five_minutes@[i]).x as int == staggered_slot_x(
                cfg.window_width as int,
                cfg.five_minutes_padding as int,
                cfg.small_tile as int,
                i,
            ) && self.five_minutes@[i].y as int == staggered_slot_y(cfg, i)
        &&& self.one_minutes@.len() == 4
        &&& forall|i: int|
            0 <= i < 4 ==> (#[trigger] self.one_minutes@[i]).x as int == row_slot_x(
                cfg.window_width as int,
                cfg.minutes_padding as int,
                cfg.small_tile as int,
                i,
            ) && self.one_minutes@[i].y as int == cfg.window_height as int - 3 * cfg.small_tile
        &&& self.second.x as int == cfg.window_width as int / 2 - cfg.small_tile as int / 2
        &&& self.second.y as int == cfg.window_height as int - cfg.small_tile as int
    }
}

/// Builds one four-slot band at vertical position `y`.
fn four_slot_row(width: i32, padding: i32, tile: i32, y: i32) -> (row: Vec<TilePos>)
    requires
        0 < width <= MAX_DIMENSION,
        0 <= padding,
        2 * padding <= width,
        0 < tile <= MAX_DIMENSION,
        -4 * MAX_DIMENSION <= y <= 4 * MAX_DIMENSION,
    ensures
        row@.len() == 4,
        forall|i: int|
            0 <= i < 4 ==> (#[trigger] row@[i]).x as int == row_slot_x(
                width as int,
                padding as int,
                tile as int,
                i,
            ) && row@[i].y == y,
{
    let step = (width - 2 * padding) / 3;
    let half = tile / 2;
    let mut row: Vec<TilePos> = Vec::new();
    row.push(TilePos { x: padding - half, y });
    row.push(TilePos { x: padding + step - half, y });
    row.push(TilePos { x: padding + step * 2 - half, y });
    row.push(TilePos { x: width - padding - half, y });
    proof {
        assert forall|i: int|
            0 <= i < 4 implies ((#[trigger] row@[i]).x as int == row_slot_x(
            width as int,
            padding as int,
            tile as int,
            i,
        ) && row@[i].y == y) by {
            if i == 0 {
                assert(((width as int - 2 * padding as int) / 3) * 0 == 0);
            } else if i == 1 {
                assert(((width as int - 2 * padding as int) / 3) * 1 == step as int);
            } else if i == 2 {
                assert(((width as int - 2 * padding as int) / 3) * 2 == 2 * step as int);
            }
        }
    }
    row
}

/// Computes the full tile layout for a configuration. Pure and total over
/// valid configurations: identical inputs always yield identical
/// coordinates.
pub fn compute_layout(cfg: LayoutConfig) -> (layout: Layout)
    requires
        cfg.valid(),
    ensures
        layout.matches(cfg),
{
    let band = cfg.window_height / 6;
    let five_hours = four_slot_row(cfg.window_width, cfg.hours_padding, cfg.big_tile, 0);
    let one_hours = four_slot_row(
        cfg.window_width,
        cfg.hours_padding,
        cfg.big_tile,
        band * 2 - cfg.big_tile / 2,
    );
    let one_minutes = four_slot_row(
        cfg.window_width,
        cfg.minutes_padding,
        cfg.small_tile,
        cfg.window_height - 3 * cfg.small_tile,
    );

    let step = (cfg.window_width - 2 * cfg.five_minutes_padding) / 10;
    let half = cfg.small_tile / 2;
    let mut five_minutes: Vec<TilePos> = Vec::new();
    let mut i: usize = 0;
    while i < 11
        invariant
            i <= 11,
            cfg.valid(),
            step as int == (cfg.window_width as int - 2 * cfg.five_minutes_padding as int) / 10,
            0 <= step <= MAX_DIMENSION / 10,
            half as int == cfg.small_tile as int / 2,
            0 <= half <= MAX_DIMENSION / 2,
            band as int == band_height(cfg),
            0 <= band <= MAX_DIMENSION / 6,
            five_minutes@.len() == i,
            forall|j: int|
                0 <= j < i ==> (#[trigger] five_minutes@[j]).x as int == staggered_slot_x(
                    cfg.window_width as int,
                    cfg.five_minutes_padding as int,
                    cfg.small_tile as int,
                    j,
                ) && five_minutes@[j].y as int == staggered_slot_y(cfg, j),
        decreases 11 - i,
    {
        proof {
            assert(0 <= step as int * (i as int) <= MAX_DIMENSION) by (nonlinear_arith)
                requires
                    0 <= step <= MAX_DIMENSION / 10,
                    0 <= i < 11,
                    MAX_DIMENSION == 100000,
            ;
        }
        let x = if i == 10 {
            cfg.window_width - cfg.five_minutes_padding - half
        } else {
            cfg.five_minutes_padding + step * (i as i32) - half
        };
        let stagger = if (i as i32) % 2 == 1 {
            cfg.small_tile
        } else {
            0
        };
        let y = band * 3 + stagger - cfg.small_tile / 4;
        proof {
            if i as int % 2 == 1 {
                assert((i as int % 2) * (cfg.small_tile as int) == cfg.small_tile as int);
            } else {
                assert(i as int % 2 == 0);
                assert((i as int % 2) * (cfg.small_tile as int) == 0);
            }
        }
        five_minutes.push(TilePos { x, y });
        i = i + 1;
    }

    let second = TilePos {
        x: cfg.window_width / 2 - half,
        y: cfg.window_height - cfg.small_tile,
    };

    Layout { five_hours, one_hours, five_minutes, one_minutes, second }
}

/// Law of idempotence: the layout computation is a pure function of its
/// configuration, so two layouts computed from identical configurations
/// agree on every coordinate.
pub proof fn lemma_layout_idempotent(a: Layout, b: Layout, cfg: LayoutConfig)
    requires
        a.matches(cfg),
        b.matches(cfg),
    ensures
        a.five_hours@ == b.five_hours@,
        a.one_hours@ == b.one_hours@,
        a.five_minutes@ == b.five_minutes@,
        a.one_minutes@ == b.one_minutes@,
        a.second == b.second,
{
    assert forall|i: int| 0 <= i < 4 implies a.five_hours@[i] == b.five_hours@[i] by {
        assert(a.five_hours@[i].x == b.five_hours@[i].x);
        assert(a.five_hours@[i].y == b.five_hours@[i].y);
    }
    assert(a.five_hours@ =~= b.five_hours@);
    assert forall|i: int| 0 <= i < 4 implies a.one_hours@[i] == b.one_hours@[i] by {
        assert(a.one_hours@[i].x == b.one_hours@[i].x);
        assert(a.one_hours@[i].y == b.one_hours@[i].y);
    }
    assert(a.one_hours@ =~= b.one_hours@);
    assert forall|i: int| 0 <= i < 11 implies a.five_minutes@[i] == b.five_minutes@[i] by {
        assert(a.five_minutes@[i].x == b.five_minutes@[i].x);
        assert(a.five_minutes@[i].y == b.five_minutes@[i].y);
    }
    assert(a.five_minutes@ =~= b.five_minutes@);
    assert forall|i: int| 0 <= i < 4 implies a.one_minutes@[i] == b.one_minutes@[i] by {
        assert(a.one_minutes@[i].x == b.one_minutes@[i].x);
        assert(a.one_minutes@[i].y == b.one_minutes@[i].y);
    }
    assert(a.one_minutes@ =~= b.one_minutes@);
}

} // verus!
