//! Section A-A: a vertical cut through the sauna, east-west.

use vstd::prelude::*;
use vstd::string::*;
use crate::dimensions::{Dimensions, DIM_OFFSET, LABEL_TEXT_HEIGHT};
use crate::geometry::{
    closed_model, in_offset, line_model, polyline_model, spt, text_model, Drawing, Layer, Point,
    SpecEntity,
};
use crate::helpers::{dim_horizontal_model, dim_vertical_model, draw_dim_horizontal, draw_dim_vertical};
use crate::plan::BENCH_INSET;
use crate::views::{GROUND_EXTENSION, TITLE_RISE};

verus! {

/// How far the cut deck reaches past the sauna's walls.
pub const SECTION_DECK_EXTENSION: i64 = 300;
/// Thickness of a bench's seat.
pub const BENCH_SEAT: i64 = 50;
/// Free space between the heater and the sauna's east wall.
pub const HEATER_WALL_GAP: i64 = 300;
pub const HEATER_WIDTH: i64 = 300;
pub const HEATER_HEIGHT: i64 = 700;
/// How far west of the sauna the bench heights are measured.
pub const BENCH_DIM_X: i64 = 500;
pub const LOWER_BENCH_DIM_OFFSET: i64 = 200;
pub const UPPER_BENCH_DIM_OFFSET: i64 = 400;

/// The bench seat at `height` above the floor, in section.
pub open spec fn bench_model(d: Dimensions, ox: int, floor: int, height: int) -> SpecEntity {
    let x1 = ox + d.wall_thickness + BENCH_INSET;
    let x2 = x1 + d.bench_depth;
    let y1 = floor + height;
    let y2 = y1 + BENCH_SEAT;
    closed_model(Layer::Fixtures, spt(x1, y1), spt(x2, y1), spt(x2, y2), spt(x1, y2))
}

/// The cut: ground, deck, both walls cut through, the lower and upper bench at their
/// heights, the heater, the roof with its overhang, the ceiling line, the sauna's
/// width, the two bench heights and the room height, and the view's title.
pub open spec fn section_cut_model(d: Dimensions, ox: int, oy: int) -> Seq<SpecEntity> {
    let s = d.sauna_width as int;
    let t = d.wall_thickness as int;
    let floor = oy + d.deck_elev_height;
    let eave = floor + d.building_height;
    let roof_top = eave + d.roof_thickness;
    let ro = d.roof_overhang as int;
    let hx1 = ox + s - t - HEATER_WALL_GAP - HEATER_WIDTH;
    let hx2 = ox + s - t - HEATER_WALL_GAP;
    let empty = Seq::<char>::empty();
    seq![
        line_model(Layer::Section, spt(ox - GROUND_EXTENSION, oy), spt(ox + s + GROUND_EXTENSION, oy)),
        polyline_model(
            Layer::Deck,
            seq![
                spt(ox - SECTION_DECK_EXTENSION, oy),
                spt(ox - SECTION_DECK_EXTENSION, floor),
                spt(ox + s + SECTION_DECK_EXTENSION, floor),
                spt(ox + s + SECTION_DECK_EXTENSION, oy),
            ],
        ),
        closed_model(Layer::Section, spt(ox, floor), spt(ox, eave), spt(ox + t, eave), spt(ox + t, floor)),
        closed_model(Layer::Section, spt(ox + s - t, floor), spt(ox + s - t, eave), spt(ox + s, eave), spt(ox + s, floor)),
        bench_model(d, ox, floor, d.bench_height_lower as int),
        bench_model(d, ox, floor, d.bench_height_upper as int),
        closed_model(Layer::Fixtures, spt(hx1, floor), spt(hx1, floor + HEATER_HEIGHT), spt(hx2, floor + HEATER_HEIGHT), spt(hx2, floor)),
        closed_model(Layer::Roof, spt(ox - ro, eave), spt(ox - ro, roof_top), spt(ox + s + ro, roof_top), spt(ox + s + ro, eave)),
        line_model(Layer::Section, spt(ox + t, eave), spt(ox + s - t, eave)),
    ]
        + dim_horizontal_model(ox, ox + s, roof_top, DIM_OFFSET as int, empty)
        + dim_vertical_model(ox - BENCH_DIM_X, floor, floor + d.bench_height_lower, -LOWER_BENCH_DIM_OFFSET, empty)
        + dim_vertical_model(ox - BENCH_DIM_X, floor, floor + d.bench_height_upper, -UPPER_BENCH_DIM_OFFSET, empty)
        + dim_vertical_model(ox + s, floor, eave, DIM_OFFSET as int, empty)
        + seq![
            text_model(Layer::Text, spt(ox + 300, roof_top + TITLE_RISE), LABEL_TEXT_HEIGHT as int, 0, "SECTION A-A"@),
        ]
}

fn draw_bench(drawing: &mut Drawing, d: &Dimensions, ox: i64, floor: i64, height: i64)
    requires
        d.wf(),
        in_offset(ox as int),
        -2 * crate::geometry::OFFSET_LIMIT <= floor <= 2 * crate::geometry::OFFSET_LIMIT,
        crate::dimensions::in_limit(height),
    ensures
        final(drawing)@ == old(drawing)@.push(bench_model(*d, ox as int, floor as int, height as int)),
{
    let x1 = ox + d.wall_thickness + BENCH_INSET;
    let x2 = x1 + d.bench_depth;
    let y1 = floor + height;
    let y2 = y1 + BENCH_SEAT;
    drawing.add_closed(Layer::Fixtures, Point::new(x1, y1), Point::new(x2, y1), Point::new(x2, y2), Point::new(x1, y2));
}

/// Draws the section with the sauna's west ground corner at `(offset_x, offset_y)`.
pub fn create_section_cut(drawing: &mut Drawing, d: &Dimensions, offset_x: i64, offset_y: i64)
    requires
        d.wf(),
        in_offset(offset_x as int),
        in_offset(offset_y as int),
    ensures
        final(drawing)@ == old(drawing)@ + section_cut_model(*d, offset_x as int, offset_y as int),
{
    let ox = offset_x;
    let oy = offset_y;
    let s = d.sauna_width;
    let t = d.wall_thickness;
    let floor = oy + d.deck_elev_height;
    let eave = floor + d.building_height;
    let roof_top = eave + d.roof_thickness;
    let ro = d.roof_overhang;
    drawing.add_line(Layer::Section, Point::new(ox - GROUND_EXTENSION, oy), Point::new(ox + s + GROUND_EXTENSION, oy));
    drawing.add_open4(
        Layer::Deck,
        Point::new(ox - SECTION_DECK_EXTENSION, oy),
        Point::new(ox - SECTION_DECK_EXTENSION, floor),
        Point::new(ox + s + SECTION_DECK_EXTENSION, floor),
        Point::new(ox + s + SECTION_DECK_EXTENSION, oy),
    );
    drawing.add_closed(Layer::Section, Point::new(ox, floor), Point::new(ox, eave), Point::new(ox + t, eave), Point::new(ox + t, floor));
    drawing.add_closed(Layer::Section, Point::new(ox + s - t, floor), Point::new(ox + s - t, eave), Point::new(ox + s, eave), Point::new(ox + s, floor));
    draw_bench(drawing, d, ox, floor, d.bench_height_lower);
    draw_bench(drawing, d, ox, floor, d.bench_height_upper);
    let hx1 = ox + s - t - HEATER_WALL_GAP - HEATER_WIDTH;
    let hx2 = ox + s - t - HEATER_WALL_GAP;
    drawing.add_closed(Layer::Fixtures, Point::new(hx1, floor), Point::new(hx1, floor + HEATER_HEIGHT), Point::new(hx2, floor + HEATER_HEIGHT), Point::new(hx2, floor));
    drawing.add_closed(Layer::Roof, Point::new(ox - ro, eave), Point::new(ox - ro, roof_top), Point::new(ox + s + ro, roof_top), Point::new(ox + s + ro, eave));
    drawing.add_line(Layer::Section, Point::new(ox + t, eave), Point::new(ox + s - t, eave));
    proof {
        reveal_strlit("");
    }
    draw_dim_horizontal(drawing, ox, ox + s, roof_top, DIM_OFFSET, "");
    draw_dim_vertical(drawing, ox - BENCH_DIM_X, floor, floor + d.bench_height_lower, -LOWER_BENCH_DIM_OFFSET, "");
    draw_dim_vertical(drawing, ox - BENCH_DIM_X, floor, floor + d.bench_height_upper, -UPPER_BENCH_DIM_OFFSET, "");
    draw_dim_vertical(drawing, ox + s, floor, eave, DIM_OFFSET, "");
    drawing.add_text(Layer::Text, Point::new(ox + 300, roof_top + TITLE_RISE), LABEL_TEXT_HEIGHT, 0, String::from_str("SECTION A-A"));
    assert(drawing@ =~= old(drawing)@ + section_cut_model(*d, ox as int, oy as int));
}

} // verus!
