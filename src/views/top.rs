//! Top view: the roof plan.

use vstd::prelude::*;
use vstd::string::*;
use crate::dimensions::{Dimensions, DIM_OFFSET, LABEL_TEXT_HEIGHT};
use crate::geometry::{
    circle_model, closed_model, fraction, in_offset, spt, text_model, Drawing, Layer, Point,
    SpecEntity,
};
use crate::helpers::{dim_horizontal_model, dim_vertical_model, draw_dim_horizontal, draw_dim_vertical};
use crate::views::TITLE_RISE;

verus! {

/// Radius of the heater's flue through the roof.
pub const VENT_RADIUS: i64 = 150;

/// Seen from above: the roof outline with its overhang on every side, the building's
/// footprint below it, the enclosed rooms' outline, the heater's flue, the roof's
/// width and depth, and the view's title.
pub open spec fn top_view_model(d: Dimensions, ox: int, oy: int) -> Seq<SpecEntity> {
    let w = d.spec_total_width();
    let e = d.spec_enclosed_width();
    let depth = d.building_depth as int;
    let ro = d.roof_overhang as int;
    let empty = Seq::<char>::empty();
    seq![
        closed_model(Layer::Roof, spt(ox - ro, oy - ro), spt(ox + w + ro, oy - ro), spt(ox + w + ro, oy + depth + ro), spt(ox - ro, oy + depth + ro)),
        closed_model(Layer::Walls, spt(ox, oy), spt(ox + w, oy), spt(ox + w, oy + depth), spt(ox, oy + depth)),
        closed_model(Layer::WallsInner, spt(ox, oy), spt(ox + e, oy), spt(ox + e, oy + depth), spt(ox, oy + depth)),
        circle_model(Layer::Fixtures, spt(ox + d.heater_diameter, oy + depth / 2), VENT_RADIUS as int),
    ]
        + dim_horizontal_model(ox - ro, ox + w + ro, oy + depth + ro, DIM_OFFSET as int, empty)
        + dim_vertical_model(ox + w + ro, oy - ro, oy + depth + ro, DIM_OFFSET as int, empty)
        + seq![
            text_model(Layer::Text, spt(ox + 1000, oy + depth + ro + TITLE_RISE), LABEL_TEXT_HEIGHT as int, 0, "ROOF PLAN"@),
        ]
}

/// Draws the roof plan with the building's south-west corner at `(offset_x, offset_y)`.
pub fn create_top_view(drawing: &mut Drawing, d: &Dimensions, offset_x: i64, offset_y: i64)
    requires
        d.wf(),
        in_offset(offset_x as int),
        in_offset(offset_y as int),
    ensures
        final(drawing)@ == old(drawing)@ + top_view_model(*d, offset_x as int, offset_y as int),
{
    let ox = offset_x;
    let oy = offset_y;
    let w = d.total_width();
    let e = d.enclosed_width();
    let depth = d.building_depth;
    let ro = d.roof_overhang;
    drawing.add_closed(Layer::Roof, Point::new(ox - ro, oy - ro), Point::new(ox + w + ro, oy - ro), Point::new(ox + w + ro, oy + depth + ro), Point::new(ox - ro, oy + depth + ro));
    drawing.add_closed(Layer::Walls, Point::new(ox, oy), Point::new(ox + w, oy), Point::new(ox + w, oy + depth), Point::new(ox, oy + depth));
    drawing.add_closed(Layer::WallsInner, Point::new(ox, oy), Point::new(ox + e, oy), Point::new(ox + e, oy + depth), Point::new(ox, oy + depth));
    drawing.add_circle(Layer::Fixtures, Point::new(ox + d.heater_diameter, oy + fraction(depth, 1, 2)), VENT_RADIUS);
    proof {
        reveal_strlit("");
    }
    draw_dim_horizontal(drawing, ox - ro, ox + w + ro, oy + depth + ro, DIM_OFFSET, "");
    draw_dim_vertical(drawing, ox + w + ro, oy - ro, oy + depth + ro, DIM_OFFSET, "");
    drawing.add_text(Layer::Text, Point::new(ox + 1000, oy + depth + ro + TITLE_RISE), LABEL_TEXT_HEIGHT, 0, String::from_str("ROOF PLAN"));
    assert(drawing@ =~= old(drawing)@ + top_view_model(*d, ox as int, oy as int));
}

} // verus!
