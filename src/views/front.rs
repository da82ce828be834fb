//! Front (south) elevation.

use vstd::prelude::*;
use vstd::string::*;
use crate::dimensions::{Dimensions, DIM_OFFSET, ENTRY_DOOR_OFFSET, LABEL_TEXT_HEIGHT};
use crate::geometry::{
    closed_model, fraction, in_offset, line_model, polyline_model, spt, text_model, Drawing, Layer,
    Point, SpecEntity,
};
use crate::helpers::{dim_horizontal_model, dim_vertical_model, draw_dim_horizontal, draw_dim_vertical};
use crate::views::{GROUND_EXTENSION, TITLE_RISE};

verus! {

/// Extra offset of the building-height dimension beyond the deck-height one.
pub const OUTER_DIM_OFFSET: i64 = 500;

/// The south face: ground, deck platform, the enclosed rooms, the covered deck's two
/// posts, the flat roof with its overhang, the entrance door, the sauna window, the
/// overall width and the deck and wall heights, and the view's title.
pub open spec fn front_elevation_model(d: Dimensions, ox: int, oy: int) -> Seq<SpecEntity> {
    let w = d.spec_total_width();
    let e = d.spec_enclosed_width();
    let floor = oy + d.deck_elev_height;
    let eave = floor + d.building_height;
    let roof_top = eave + d.roof_thickness;
    let ro = d.roof_overhang as int;
    let ps = d.post_size as int;
    let post1 = ox + e;
    let post2 = ox + w - d.post_inset;
    let door_x = ox + d.sauna_width + ENTRY_DOOR_OFFSET;
    let door_top = floor + d.door_height;
    let win_x = ox + (d.sauna_width as int) / 2 - (d.window_width as int) / 2;
    let sill = floor + d.window_sill_height;
    let head = sill + d.window_height;
    let empty = Seq::<char>::empty();
    seq![
        line_model(Layer::Elevation, spt(ox - GROUND_EXTENSION, oy), spt(ox + w + GROUND_EXTENSION, oy)),
        polyline_model(Layer::Deck, seq![spt(ox, oy), spt(ox, floor), spt(ox + w, floor), spt(ox + w, oy)]),
        closed_model(Layer::Walls, spt(ox, floor), spt(ox, eave), spt(ox + e, eave), spt(ox + e, floor)),
        closed_model(Layer::Walls, spt(post1, floor), spt(post1, eave), spt(post1 + ps, eave), spt(post1 + ps, floor)),
        closed_model(Layer::Walls, spt(post2, floor), spt(post2, eave), spt(post2 + ps, eave), spt(post2 + ps, floor)),
        closed_model(Layer::Roof, spt(ox - ro, eave), spt(ox - ro, roof_top), spt(ox + w + ro, roof_top), spt(ox + w + ro, eave)),
        polyline_model(
            Layer::Doors,
            seq![spt(door_x, floor), spt(door_x, door_top), spt(door_x + d.door_width, door_top), spt(door_x + d.door_width, floor)],
        ),
        closed_model(Layer::Windows, spt(win_x, sill), spt(win_x, head), spt(win_x + d.window_width, head), spt(win_x + d.window_width, sill)),
    ]
        + dim_horizontal_model(ox, ox + w, roof_top, DIM_OFFSET as int, empty)
        + dim_vertical_model(ox + w, oy, floor, DIM_OFFSET as int, empty)
        + dim_vertical_model(ox + w, floor, eave, OUTER_DIM_OFFSET as int, empty)
        + seq![
            text_model(Layer::Text, spt(ox + 500, roof_top + TITLE_RISE), LABEL_TEXT_HEIGHT as int, 0, "FRONT ELEVATION"@),
        ]
}

/// Draws the front elevation with its south-west ground corner at `(offset_x, offset_y)`.
pub fn create_front_elevation(drawing: &mut Drawing, d: &Dimensions, offset_x: i64, offset_y: i64)
    requires
        d.wf(),
        in_offset(offset_x as int),
        in_offset(offset_y as int),
    ensures
        final(drawing)@ == old(drawing)@ + front_elevation_model(*d, offset_x as int, offset_y as int),
{
    let ox = offset_x;
    let oy = offset_y;
    let w = d.total_width();
    let e = d.enclosed_width();
    let floor = oy + d.deck_elev_height;
    let eave = floor + d.building_height;
    let roof_top = eave + d.roof_thickness;
    let ro = d.roof_overhang;
    let ps = d.post_size;

    drawing.add_line(Layer::Elevation, Point::new(ox - GROUND_EXTENSION, oy), Point::new(ox + w + GROUND_EXTENSION, oy));
    drawing.add_open4(Layer::Deck, Point::new(ox, oy), Point::new(ox, floor), Point::new(ox + w, floor), Point::new(ox + w, oy));
    drawing.add_closed(Layer::Walls, Point::new(ox, floor), Point::new(ox, eave), Point::new(ox + e, eave), Point::new(ox + e, floor));
    let post1 = ox + e;
    let post2 = ox + w - d.post_inset;
    drawing.add_closed(Layer::Walls, Point::new(post1, floor), Point::new(post1, eave), Point::new(post1 + ps, eave), Point::new(post1 + ps, floor));
    drawing.add_closed(Layer::Walls, Point::new(post2, floor), Point::new(post2, eave), Point::new(post2 + ps, eave), Point::new(post2 + ps, floor));
    drawing.add_closed(Layer::Roof, Point::new(ox - ro, eave), Point::new(ox - ro, roof_top), Point::new(ox + w + ro, roof_top), Point::new(ox + w + ro, eave));

    let door_x = ox + d.sauna_width + ENTRY_DOOR_OFFSET;
    let door_top = floor + d.door_height;
    drawing.add_open4(Layer::Doors, Point::new(door_x, floor), Point::new(door_x, door_top), Point::new(door_x + d.door_width, door_top), Point::new(door_x + d.door_width, floor));

    let win_x = ox + fraction(d.sauna_width, 1, 2) - fraction(d.window_width, 1, 2);
    let sill = floor + d.window_sill_height;
    let head = sill + d.window_height;
    drawing.add_closed(Layer::Windows, Point::new(win_x, sill), Point::new(win_x, head), Point::new(win_x + d.window_width, head), Point::new(win_x + d.window_width, sill));

    proof {
        reveal_strlit("");
    }
    draw_dim_horizontal(drawing, ox, ox + w, roof_top, DIM_OFFSET, "");
    draw_dim_vertical(drawing, ox + w, oy, floor, DIM_OFFSET, "");
    draw_dim_vertical(drawing, ox + w, floor, eave, OUTER_DIM_OFFSET, "");
    drawing.add_text(Layer::Text, Point::new(ox + 500, roof_top + TITLE_RISE), LABEL_TEXT_HEIGHT, 0, String::from_str("FRONT ELEVATION"));
    assert(drawing@ =~= old(drawing)@ + front_elevation_model(*d, ox as int, oy as int));
}

} // verus!
