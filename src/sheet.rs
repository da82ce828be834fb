//! The whole sheet: the floor plan at the origin and the four views beside it.

use vstd::prelude::*;
use crate::dimensions::{Dimensions, ENTRY_DOOR_OFFSET};
use crate::geometry::{line_end, line_start, vertices_of, Drawing, SpecEntity};
use crate::plan::{dimension_line, doors_model, draw_floor_plan, floor_plan_model, y_span};
use crate::views::front::front_elevation_model;
use crate::views::section::section_cut_model;
use crate::views::side::side_elevation_model;
use crate::views::top::top_view_model;
use crate::views::{create_front_elevation, create_section_cut, create_side_elevation, create_top_view};

verus! {

/// Free space between neighbouring views on the sheet.
pub const VIEW_GAP: i64 = 4000;

/// The front elevation stands east of the plan.
pub open spec fn front_origin(d: Dimensions) -> (int, int) {
    (d.spec_total_width() + VIEW_GAP, 0)
}

/// The roof plan stands below the front elevation.
pub open spec fn top_origin(d: Dimensions) -> (int, int) {
    (d.spec_total_width() + VIEW_GAP, -(d.building_depth + 2 * d.roof_overhang + VIEW_GAP))
}

/// The side elevation stands east of the front elevation.
pub open spec fn side_origin(d: Dimensions) -> (int, int) {
    (2 * d.spec_total_width() + 2 * VIEW_GAP + d.deck_depth, 0)
}

/// The section stands east of the side elevation.
pub open spec fn section_origin(d: Dimensions) -> (int, int) {
    (2 * d.spec_total_width() + d.building_depth + 3 * VIEW_GAP + d.deck_depth, 0)
}

/// Everything on the sheet, in drawing order: plan, front elevation, roof plan, side
/// elevation, section.
pub open spec fn sheet_model(d: Dimensions) -> Seq<SpecEntity> {
    floor_plan_model(d)
        + front_elevation_model(d, front_origin(d).0, front_origin(d).1)
        + top_view_model(d, top_origin(d).0, top_origin(d).1)
        + side_elevation_model(d, side_origin(d).0, side_origin(d).1)
        + section_cut_model(d, section_origin(d).0, section_origin(d).1)
}

/// Draws the whole sheet for a dimension set.
pub fn generate_drawing(d: &Dimensions) -> (r: Drawing)
    requires
        d.wf(),
    ensures
        r@ == sheet_model(*d),
{
    let mut drawing = Drawing::new();
    let w = d.total_width();
    draw_floor_plan(&mut drawing, d);
    create_front_elevation(&mut drawing, d, w + VIEW_GAP, 0);
    create_top_view(&mut drawing, d, w + VIEW_GAP, -(d.building_depth + 2 * d.roof_overhang + VIEW_GAP));
    create_side_elevation(&mut drawing, d, 2 * w + 2 * VIEW_GAP + d.deck_depth, 0);
    create_section_cut(&mut drawing, d, 2 * w + d.building_depth + 3 * VIEW_GAP + d.deck_depth, 0);
    assert(drawing@ =~= sheet_model(*d));
    drawing
}

/// Generation is deterministic: two sheets generated from equal dimension sets hold
/// the same shapes in the same order.
pub proof fn lemma_generation_deterministic(d1: Dimensions, d2: Dimensions, a: Drawing, b: Drawing)
    requires
        d1.wf(),
        d1 == d2,
        a@ == sheet_model(d1),
        b@ == sheet_model(d2),
    ensures
        a@ == b@,
{
}

/// The views agree with each other and with the plan. The room height dimensioned in
/// the front elevation and in the section, and the wall drawn in the side elevation,
/// are all the building height; the entrance door's opening spans the same stretch
/// east of the building's west end in the plan (hinge to threshold end) and in the
/// front elevation.
pub proof fn lemma_views_agree(d: Dimensions, ox: int, oy: int)
    requires
        d.wf(),
    ensures
        ({
            let front = front_elevation_model(d, ox, oy);
            let side = side_elevation_model(d, ox, oy);
            let section = section_cut_model(d, ox, oy);
            &&& y_span(dimension_line(front.skip(8), 2)) == d.building_height
            &&& y_span(dimension_line(section.skip(9), 3)) == d.building_height
            &&& vertices_of(side[2])[1].y - vertices_of(side[2])[0].y == d.building_height
            &&& vertices_of(front[6])[0].x - ox == line_start(doors_model(d)[0]).x
            &&& line_start(doors_model(d)[0]).x == d.sauna_width + ENTRY_DOOR_OFFSET
            &&& line_end(doors_model(d)[2]).x == vertices_of(front[6])[2].x - ox
        }),
{
}

} // verus!
