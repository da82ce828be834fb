//! Side (east) elevation.

use vstd::prelude::*;
use vstd::string::*;
use crate::dimensions::{Dimensions, DIM_OFFSET, LABEL_TEXT_HEIGHT};
use crate::geometry::{
    closed_model, in_offset, line_model, polyline_model, spt, text_model, Drawing, Layer, Point,
    SpecEntity,
};
use crate::helpers::{dim_horizontal_model, dim_vertical_model, draw_dim_horizontal, draw_dim_vertical};
use crate::views::{GROUND_EXTENSION, TITLE_RISE};

verus! {

/// How far the window's frame reaches past the inner face of the north wall.
pub const WINDOW_REVEAL: i64 = 50;

/// The side face, south to the left: ground, the deck reaching a terrace depth in
/// front of the building, the wall over the full building depth, the roof with its
/// overhang, the window by the north wall, the depth and the overall height, and the
/// view's title.
pub open spec fn side_elevation_model(d: Dimensions, ox: int, oy: int) -> Seq<SpecEntity> {
    let depth = d.building_depth as int;
    let floor = oy + d.deck_elev_height;
    let eave = floor + d.building_height;
    let roof_top = eave + d.roof_thickness;
    let ro = d.roof_overhang as int;
    let win_x = ox + depth - d.wall_thickness - WINDOW_REVEAL;
    let sill = floor + d.window_sill_height;
    let head = sill + d.window_height;
    let empty = Seq::<char>::empty();
    seq![
        line_model(Layer::Elevation, spt(ox - GROUND_EXTENSION, oy), spt(ox + depth + d.deck_depth + GROUND_EXTENSION, oy)),
        polyline_model(Layer::Deck, seq![spt(ox - d.deck_depth, oy), spt(ox - d.deck_depth, floor), spt(ox + depth, floor), spt(ox + depth, oy)]),
        closed_model(Layer::Walls, spt(ox, floor), spt(ox, eave), spt(ox + depth, eave), spt(ox + depth, floor)),
        closed_model(Layer::Roof, spt(ox - ro, eave), spt(ox - ro, roof_top), spt(ox + depth + ro, roof_top), spt(ox + depth + ro, eave)),
        closed_model(Layer::Windows, spt(win_x, sill), spt(win_x, head), spt(ox + depth, head), spt(ox + depth, sill)),
    ]
        + dim_horizontal_model(ox, ox + depth, roof_top, DIM_OFFSET as int, empty)
        + dim_vertical_model(ox + depth, oy, roof_top, DIM_OFFSET as int, empty)
        + seq![
            text_model(Layer::Text, spt(ox + 200, roof_top + TITLE_RISE), LABEL_TEXT_HEIGHT as int, 0, "SIDE ELEVATION"@),
        ]
}

/// Draws the side elevation with the building's south ground corner at `(offset_x, offset_y)`.
pub fn create_side_elevation(drawing: &mut Drawing, d: &Dimensions, offset_x: i64, offset_y: i64)
    requires
        d.wf(),
        in_offset(offset_x as int),
        in_offset(offset_y as int),
    ensures
        final(drawing)@ == old(drawing)@ + side_elevation_model(*d, offset_x as int, offset_y as int),
{
    let ox = offset_x;
    let oy = offset_y;
    let depth = d.building_depth;
    let floor = oy + d.deck_elev_height;
    let eave = floor + d.building_height;
    let roof_top = eave + d.roof_thickness;
    let ro = d.roof_overhang;
    drawing.add_line(Layer::Elevation, Point::new(ox - GROUND_EXTENSION, oy), Point::new(ox + depth + d.deck_depth + GROUND_EXTENSION, oy));
    drawing.add_open4(Layer::Deck, Point::new(ox - d.deck_depth, oy), Point::new(ox - d.deck_depth, floor), Point::new(ox + depth, floor), Point::new(ox + depth, oy));
    drawing.add_closed(Layer::Walls, Point::new(ox, floor), Point::new(ox, eave), Point::new(ox + depth, eave), Point::new(ox + depth, floor));
    drawing.add_closed(Layer::Roof, Point::new(ox - ro, eave), Point::new(ox - ro, roof_top), Point::new(ox + depth + ro, roof_top), Point::new(ox + depth + ro, eave));
    let win_x = ox + depth - d.wall_thickness - WINDOW_REVEAL;
    let sill = floor + d.window_sill_height;
    let head = sill + d.window_height;
    drawing.add_closed(Layer::Windows, Point::new(win_x, sill), Point::new(win_x, head), Point::new(ox + depth, head), Point::new(ox + depth, sill));
    proof {
        reveal_strlit("");
    }
    draw_dim_horizontal(drawing, ox, ox + depth, roof_top, DIM_OFFSET, "");
    draw_dim_vertical(drawing, ox + depth, oy, roof_top, DIM_OFFSET, "");
    drawing.add_text(Layer::Text, Point::new(ox + 200, roof_top + TITLE_RISE), LABEL_TEXT_HEIGHT, 0, String::from_str("SIDE ELEVATION"));
    assert(drawing@ =~= old(drawing)@ + side_elevation_model(*d, ox as int, oy as int));
}

} // verus!
