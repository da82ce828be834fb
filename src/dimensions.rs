//! The dimension set of the building and the quantities derived from it.
//!
//! Lengths are millimetres, areas square millimetres.

use vstd::prelude::*;

verus! {

// Room widths, each including its walls.
pub const SAUNA_WIDTH: i64 = 2260;
pub const WASH_WIDTH: i64 = 1200;
pub const SEATING_WIDTH: i64 = 1500;
/// Width of the covered deck east of the enclosed rooms.
pub const OUTDOOR_SEATING_WIDTH: i64 = 3650;
pub const ENCLOSED_WIDTH: i64 = SAUNA_WIDTH + WASH_WIDTH + SEATING_WIDTH;
pub const TOTAL_WIDTH: i64 = ENCLOSED_WIDTH + OUTDOOR_SEATING_WIDTH;
pub const BUILDING_DEPTH: i64 = 3000;
/// Depth of the open terrace strip along the south side.
pub const DECK_DEPTH: i64 = 1000;
pub const WALL_THICKNESS: i64 = 150;

pub const DOOR_WIDTH: i64 = 800;
pub const DOOR_HEIGHT: i64 = 2100;
/// Wall left standing between a corner and a door opening.
pub const DOOR_MARGIN: i64 = 300;
/// Distance of the entrance door's hinge east of the sauna/wash boundary.
pub const ENTRY_DOOR_OFFSET: i64 = 200;

pub const WINDOW_WIDTH: i64 = 600;
pub const WINDOW_HEIGHT: i64 = 800;
pub const WINDOW_SILL_HEIGHT: i64 = 1000;

pub const HOT_TUB_DIAMETER: i64 = 2000;
/// Hot tub centre, measured west from the east edge.
pub const HOT_TUB_OFFSET_X: i64 = 1500;
/// How far the hot tub reaches onto the deck past its south edge.
pub const HOT_TUB_OFFSET_Y: i64 = 200;

pub const BUILDING_HEIGHT: i64 = 2500;
pub const DECK_ELEV_HEIGHT: i64 = 400;
pub const ROOF_THICKNESS: i64 = 200;
pub const ROOF_OVERHANG: i64 = 300;

pub const HEATER_DIAMETER: i64 = 500;
pub const BENCH_DEPTH: i64 = 600;
pub const BENCH_HEIGHT_LOWER: i64 = 450;
pub const BENCH_HEIGHT_UPPER: i64 = 900;

pub const POST_SIZE: i64 = 150;
pub const POST_INSET: i64 = 300;

pub const DECK_BOARD_WIDTH: i64 = 150;
pub const DECK_BOARD_GAP: i64 = 10;

pub const DIM_TEXT_HEIGHT: i64 = 100;
pub const LABEL_TEXT_HEIGHT: i64 = 150;
pub const TITLE_TEXT_HEIGHT: i64 = 250;
/// Distance of a dimension line from what it measures.
pub const DIM_OFFSET: i64 = 300;
pub const DIM_TICK_SIZE: i64 = 50;

pub const DRAWING_SCALE: &'static str = "1:50";

/// Largest magnitude of a base dimension.
pub const DIM_LIMIT: i64 = 100_000_000;

/// The base lengths that the whole drawing is computed from.
#[derive(Clone, Copy, Debug, PartialEq, Eq)]
pub struct Dimensions {
    pub sauna_width: i64,
    pub wash_width: i64,
    pub seating_width: i64,
    pub outdoor_seating_width: i64,
    pub building_depth: i64,
    pub deck_depth: i64,
    pub wall_thickness: i64,
    pub door_width: i64,
    pub door_height: i64,
    pub door_margin: i64,
    pub window_width: i64,
    pub window_height: i64,
    pub window_sill_height: i64,
    pub hot_tub_diameter: i64,
    pub hot_tub_offset_x: i64,
    pub hot_tub_offset_y: i64,
    pub building_height: i64,
    pub deck_elev_height: i64,
    pub roof_thickness: i64,
    pub roof_overhang: i64,
    pub heater_diameter: i64,
    pub bench_depth: i64,
    pub bench_height_lower: i64,
    pub bench_height_upper: i64,
    pub post_size: i64,
    pub post_inset: i64,
}

pub open spec fn in_limit(v: i64) -> bool {
    -DIM_LIMIT <= v <= DIM_LIMIT
}

fn within(v: i64) -> (r: bool)
    ensures
        r == in_limit(v),
{
    -DIM_LIMIT <= v && v <= DIM_LIMIT
}

impl Dimensions {
    /// Every base length lies within `DIM_LIMIT`; nothing else is asked of them.
    pub open spec fn wf(&self) -> bool {
        &&& in_limit(self.sauna_width)
        &&& in_limit(self.wash_width)
        &&& in_limit(self.seating_width)
        &&& in_limit(self.outdoor_seating_width)
        &&& in_limit(self.building_depth)
        &&& in_limit(self.deck_depth)
        &&& in_limit(self.wall_thickness)
        &&& in_limit(self.door_width)
        &&& in_limit(self.door_height)
        &&& in_limit(self.door_margin)
        &&& in_limit(self.window_width)
        &&& in_limit(self.window_height)
        &&& in_limit(self.window_sill_height)
        &&& in_limit(self.hot_tub_diameter)
        &&& in_limit(self.hot_tub_offset_x)
        &&& in_limit(self.hot_tub_offset_y)
        &&& in_limit(self.building_height)
        &&& in_limit(self.deck_elev_height)
        &&& in_limit(self.roof_thickness)
        &&& in_limit(self.roof_overhang)
        &&& in_limit(self.heater_diameter)
        &&& in_limit(self.bench_depth)
        &&& in_limit(self.bench_height_lower)
        &&& in_limit(self.bench_height_upper)
        &&& in_limit(self.post_size)
        &&& in_limit(self.post_inset)
    }

    /// Whether every base length lies within `DIM_LIMIT`.
    pub fn within_limits(&self) -> (r: bool)
        ensures
            r == self.wf(),
    {
        within(self.sauna_width)
            && within(self.wash_width)
            && within(self.seating_width)
            && within(self.outdoor_seating_width)
            && within(self.building_depth)
            && within(self.deck_depth)
            && within(self.wall_thickness)
            && within(self.door_width)
            && within(self.door_height)
            && within(self.door_margin)
            && within(self.window_width)
            && within(self.window_height)
            && within(self.window_sill_height)
            && within(self.hot_tub_diameter)
            && within(self.hot_tub_offset_x)
            && within(self.hot_tub_offset_y)
            && within(self.building_height)
            && within(self.deck_elev_height)
            && within(self.roof_thickness)
            && within(self.roof_overhang)
            && within(self.heater_diameter)
            && within(self.bench_depth)
            && within(self.bench_height_lower)
            && within(self.bench_height_upper)
            && within(self.post_size)
            && within(self.post_inset)
    }

    /// The building as designed.
    pub fn standard() -> (r: Dimensions)
        ensures
            r.wf(),
            r.sauna_width == SAUNA_WIDTH,
            r.wash_width == WASH_WIDTH,
            r.seating_width == SEATING_WIDTH,
            r.outdoor_seating_width == OUTDOOR_SEATING_WIDTH,
            r.building_depth == BUILDING_DEPTH,
            r.deck_depth == DECK_DEPTH,
            r.wall_thickness == WALL_THICKNESS,
            r.door_width == DOOR_WIDTH,
            r.door_height == DOOR_HEIGHT,
            r.door_margin == DOOR_MARGIN,
            r.window_width == WINDOW_WIDTH,
            r.window_height == WINDOW_HEIGHT,
            r.window_sill_height == WINDOW_SILL_HEIGHT,
            r.hot_tub_diameter == HOT_TUB_DIAMETER,
            r.hot_tub_offset_x == HOT_TUB_OFFSET_X,
            r.hot_tub_offset_y == HOT_TUB_OFFSET_Y,
            r.building_height == BUILDING_HEIGHT,
            r.deck_elev_height == DECK_ELEV_HEIGHT,
            r.roof_thickness == ROOF_THICKNESS,
            r.roof_overhang == ROOF_OVERHANG,
            r.heater_diameter == HEATER_DIAMETER,
            r.bench_depth == BENCH_DEPTH,
            r.bench_height_lower == BENCH_HEIGHT_LOWER,
            r.bench_height_upper == BENCH_HEIGHT_UPPER,
            r.post_size == POST_SIZE,
            r.post_inset == POST_INSET,
    {
        Dimensions {
            sauna_width: SAUNA_WIDTH,
            wash_width: WASH_WIDTH,
            seating_width: SEATING_WIDTH,
            outdoor_seating_width: OUTDOOR_SEATING_WIDTH,
            building_depth: BUILDING_DEPTH,
            deck_depth: DECK_DEPTH,
            wall_thickness: WALL_THICKNESS,
            door_width: DOOR_WIDTH,
            door_height: DOOR_HEIGHT,
            door_margin: DOOR_MARGIN,
            window_width: WINDOW_WIDTH,
            window_height: WINDOW_HEIGHT,
            window_sill_height: WINDOW_SILL_HEIGHT,
            hot_tub_diameter: HOT_TUB_DIAMETER,
            hot_tub_offset_x: HOT_TUB_OFFSET_X,
            hot_tub_offset_y: HOT_TUB_OFFSET_Y,
            building_height: BUILDING_HEIGHT,
            deck_elev_height: DECK_ELEV_HEIGHT,
            roof_thickness: ROOF_THICKNESS,
            roof_overhang: ROOF_OVERHANG,
            heater_diameter: HEATER_DIAMETER,
            bench_depth: BENCH_DEPTH,
            bench_height_lower: BENCH_HEIGHT_LOWER,
            bench_height_upper: BENCH_HEIGHT_UPPER,
            post_size: POST_SIZE,
            post_inset: POST_INSET,
        }
    }

    pub open spec fn spec_enclosed_width(&self) -> int {
        self.sauna_width + self.wash_width + self.seating_width
    }

    pub open spec fn spec_total_width(&self) -> int {
        self.spec_enclosed_width() + self.outdoor_seating_width
    }

    /// Clear depth of a room between the south and north walls.
    pub open spec fn spec_inner_depth(&self) -> int {
        self.building_depth - 2 * self.wall_thickness
    }

    pub open spec fn spec_hot_tub_radius(&self) -> int {
        self.hot_tub_diameter / 2
    }

    /// Combined width of sauna, wash room and changing room.
    pub fn enclosed_width(&self) -> (r: i64)
        requires
            self.wf(),
        ensures
            r == self.sauna_width + self.wash_width + self.seating_width,
            r == self.spec_enclosed_width(),
    {
        self.sauna_width + self.wash_width + self.seating_width
    }

    /// Enclosed width plus the covered deck.
    pub fn total_width(&self) -> (r: i64)
        requires
            self.wf(),
        ensures
            r == self.spec_enclosed_width() + self.outdoor_seating_width,
            r == self.spec_total_width(),
    {
        self.enclosed_width() + self.outdoor_seating_width
    }

    /// Half the hot tub diameter, rounded down to a whole millimetre.
    pub fn hot_tub_radius(&self) -> (r: i64)
        requires
            self.wf(),
        ensures
            r == self.spec_hot_tub_radius(),
    {
        crate::geometry::fraction(self.hot_tub_diameter, 1, 2)
    }
}

/// Inner floor area of a room of the given width: its width less the walls it
/// does not share (`allowance`), times the clear depth between the long walls.
pub open spec fn room_area(d: Dimensions, width: int, allowance: int) -> int {
    (width - allowance) * d.spec_inner_depth()
}

/// The sauna has its own wall on both sides.
pub open spec fn spec_sauna_area(d: Dimensions) -> int {
    room_area(d, d.sauna_width as int, 2 * d.wall_thickness)
}

/// The wash room shares one wall with the sauna.
pub open spec fn spec_wash_area(d: Dimensions) -> int {
    room_area(d, d.wash_width as int, d.wall_thickness as int)
}

/// The changing room shares one wall with the wash room.
pub open spec fn spec_seating_area(d: Dimensions) -> int {
    room_area(d, d.seating_width as int, d.wall_thickness as int)
}

pub open spec fn spec_outdoor_area(d: Dimensions) -> int {
    d.outdoor_seating_width * d.building_depth
}

pub open spec fn spec_deck_area(d: Dimensions) -> int {
    d.spec_total_width() * d.deck_depth
}

pub open spec fn spec_total_floor_area(d: Dimensions) -> int {
    spec_sauna_area(d) + spec_wash_area(d) + spec_seating_area(d) + spec_outdoor_area(d)
        + spec_deck_area(d)
}

/// Bound on any area computed from dimensions within `DIM_LIMIT`.
pub open spec fn area_in_limit(a: int) -> bool {
    -16 * DIM_LIMIT * DIM_LIMIT <= a <= 16 * DIM_LIMIT * DIM_LIMIT
}

proof fn lemma_product_bound(a: int, b: int)
    requires
        -4 * DIM_LIMIT <= a <= 4 * DIM_LIMIT,
        -4 * DIM_LIMIT <= b <= 4 * DIM_LIMIT,
    ensures
        -16 * DIM_LIMIT * DIM_LIMIT <= a * b <= 16 * DIM_LIMIT * DIM_LIMIT,
{
    assert(-16 * DIM_LIMIT * DIM_LIMIT <= a * b <= 16 * DIM_LIMIT * DIM_LIMIT) by (nonlinear_arith)
        requires
            -4 * DIM_LIMIT <= a <= 4 * DIM_LIMIT,
            -4 * DIM_LIMIT <= b <= 4 * DIM_LIMIT,
    ;
}

fn room_area_exec(d: &Dimensions, width: i64, allowance: i64) -> (r: i64)
    requires
        d.wf(),
        in_limit(width),
        -2 * DIM_LIMIT <= allowance <= 2 * DIM_LIMIT,
    ensures
        r == room_area(*d, width as int, allowance as int),
        area_in_limit(r as int),
{
    let w = width - allowance;
    let depth = d.building_depth - 2 * d.wall_thickness;
    proof {
        lemma_product_bound(w as int, depth as int);
    }
    w * depth
}

/// Floor area of the sauna.
pub fn sauna_area(d: &Dimensions) -> (r: i64)
    requires
        d.wf(),
    ensures
        r == spec_sauna_area(*d),
        area_in_limit(r as int),
{
    room_area_exec(d, d.sauna_width, 2 * d.wall_thickness)
}

/// Floor area of the wash room.
pub fn wash_area(d: &Dimensions) -> (r: i64)
    requires
        d.wf(),
    ensures
        r == spec_wash_area(*d),
        area_in_limit(r as int),
{
    room_area_exec(d, d.wash_width, d.wall_thickness)
}

/// Floor area of the changing room.
pub fn seating_area(d: &Dimensions) -> (r: i64)
    requires
        d.wf(),
    ensures
        r == spec_seating_area(*d),
        area_in_limit(r as int),
{
    room_area_exec(d, d.seating_width, d.wall_thickness)
}

/// Area of the covered deck.
pub fn outdoor_area(d: &Dimensions) -> (r: i64)
    requires
        d.wf(),
    ensures
        r == spec_outdoor_area(*d),
        area_in_limit(r as int),
{
    proof {
        lemma_product_bound(d.outdoor_seating_width as int, d.building_depth as int);
    }
    d.outdoor_seating_width * d.building_depth
}

/// Area of the open terrace strip along the full width.
pub fn deck_area(d: &Dimensions) -> (r: i64)
    requires
        d.wf(),
    ensures
        r == spec_deck_area(*d),
        area_in_limit(r as int),
{
    let w = d.total_width();
    proof {
        lemma_product_bound(w as int, d.deck_depth as int);
    }
    w * d.deck_depth
}

/// Total floor area: exactly the sum of the five areas above.
pub fn total_floor_area(d: &Dimensions) -> (r: i64)
    requires
        d.wf(),
    ensures
        r == spec_sauna_area(*d) + spec_wash_area(*d) + spec_seating_area(*d)
            + spec_outdoor_area(*d) + spec_deck_area(*d),
        r == spec_total_floor_area(*d),
{
    sauna_area(d) + wash_area(d) + seating_area(d) + outdoor_area(d) + deck_area(d)
}

} // verus!
