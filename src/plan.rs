//! The floor plan: walls, doors, windows, deck, hot tub, fixtures, labels,
//! dimension chains and sheet annotations, all placed from one dimension set.
//!
//! The plan's origin is the south-west corner of the terrace; the enclosed rooms
//! start one terrace depth north of it, sauna, wash room and changing room from
//! west to east, followed by the covered deck.

use vstd::prelude::*;
use vstd::string::*;
use crate::dimensions::{
    deck_area, outdoor_area, sauna_area, seating_area, spec_deck_area, spec_outdoor_area,
    spec_sauna_area, spec_seating_area, spec_wash_area, wash_area, Dimensions, DIM_OFFSET,
    DIM_TEXT_HEIGHT, ENTRY_DOOR_OFFSET,
};
use crate::geometry::{
    arc_angles, circle_model, closed_model, fraction, line_end, line_start, polyline_model, radius_of, spt,
    text_model,
    vertices_of, Drawing, Layer, Point, SpecEntity, SpecPoint,
};
use crate::helpers::{
    deck_pattern_model, dim_horizontal_model, dim_vertical_model, door_model, draw_deck_pattern,
    draw_dim_horizontal, draw_dim_vertical, draw_door, draw_north_arrow, draw_room_label,
    draw_title_block, draw_window, north_arrow_model, room_label_model, title_block_model,
    window_model,
};
use crate::text::{integer_string, integer_text, metres_string, metres_text};

verus! {

/// South face of the enclosed rooms.
pub open spec fn deck_y(d: Dimensions) -> int {
    d.deck_depth as int
}

/// North face of the enclosed rooms.
pub open spec fn building_top(d: Dimensions) -> int {
    d.deck_depth + d.building_depth
}

/// The opening in the sauna/wash partition, as a range along y.
pub open spec fn sauna_door_gap(d: Dimensions) -> (int, int) {
    let lo = deck_y(d) + d.wall_thickness + d.door_margin;
    (lo, lo + d.door_width)
}

/// The opening in the wash/changing partition, as a range along y.
pub open spec fn seating_door_gap(d: Dimensions) -> (int, int) {
    let hi = building_top(d) - d.wall_thickness - d.door_margin;
    (hi - d.door_width, hi)
}

/// Exterior walls, the two partitions each split around its door opening, the
/// covered deck's outline and its two posts.
pub open spec fn walls_model(d: Dimensions) -> Seq<SpecEntity> {
    let y0 = deck_y(d);
    let top = building_top(d);
    let t = d.wall_thickness as int;
    let e = d.spec_enclosed_width();
    let w = d.spec_total_width();
    let s = d.sauna_width as int;
    let sw = d.sauna_width + d.wash_width;
    let g1 = sauna_door_gap(d);
    let g2 = seating_door_gap(d);
    let px = w - d.post_inset;
    let py1 = y0 + d.post_inset;
    let py2 = top - d.post_inset - d.post_size;
    let ps = d.post_size as int;
    seq![
        closed_model(Layer::Walls, spt(0, y0), spt(e, y0), spt(e, y0 + t), spt(0, y0 + t)),
        closed_model(Layer::Walls, spt(0, top - t), spt(e, top - t), spt(e, top), spt(0, top)),
        closed_model(Layer::Walls, spt(0, y0), spt(t, y0), spt(t, top), spt(0, top)),
        closed_model(Layer::Walls, spt(e - t, y0), spt(e, y0), spt(e, top), spt(e - t, top)),
        closed_model(Layer::WallsInner, spt(s - t, y0 + t), spt(s, y0 + t), spt(s, g1.0), spt(s - t, g1.0)),
        closed_model(Layer::WallsInner, spt(s - t, g1.1), spt(s, g1.1), spt(s, top - t), spt(s - t, top - t)),
        closed_model(Layer::WallsInner, spt(sw - t, y0 + t), spt(sw, y0 + t), spt(sw, g2.0), spt(sw - t, g2.0)),
        closed_model(Layer::WallsInner, spt(sw - t, g2.1), spt(sw, g2.1), spt(sw, top - t), spt(sw - t, top - t)),
        polyline_model(Layer::Walls, seq![spt(e, y0), spt(w, y0), spt(w, top), spt(e, top)]),
        closed_model(Layer::Walls, spt(px, py1), spt(px + ps, py1), spt(px + ps, py1 + ps), spt(px, py1 + ps)),
        closed_model(Layer::Walls, spt(px, py2), spt(px + ps, py2), spt(px + ps, py2 + ps), spt(px, py2 + ps)),
    ]
}

fn draw_walls(drawing: &mut Drawing, d: &Dimensions)
    requires
        d.wf(),
    ensures
        final(drawing)@ == old(drawing)@ + walls_model(*d),
{
    let y0 = d.deck_depth;
    let top = d.deck_depth + d.building_depth;
    let t = d.wall_thickness;
    let e = d.enclosed_width();
    let w = d.total_width();
    let s = d.sauna_width;
    let sw = d.sauna_width + d.wash_width;
    let g1_lo = y0 + t + d.door_margin;
    let g1_hi = g1_lo + d.door_width;
    let g2_hi = top - t - d.door_margin;
    let g2_lo = g2_hi - d.door_width;
    let l = Layer::Walls;
    let li = Layer::WallsInner;

    drawing.add_closed(l, Point::new(0, y0), Point::new(e, y0), Point::new(e, y0 + t), Point::new(0, y0 + t));
    drawing.add_closed(l, Point::new(0, top - t), Point::new(e, top - t), Point::new(e, top), Point::new(0, top));
    drawing.add_closed(l, Point::new(0, y0), Point::new(t, y0), Point::new(t, top), Point::new(0, top));
    drawing.add_closed(l, Point::new(e - t, y0), Point::new(e, y0), Point::new(e, top), Point::new(e - t, top));

    drawing.add_closed(li, Point::new(s - t, y0 + t), Point::new(s, y0 + t), Point::new(s, g1_lo), Point::new(s - t, g1_lo));
    drawing.add_closed(li, Point::new(s - t, g1_hi), Point::new(s, g1_hi), Point::new(s, top - t), Point::new(s - t, top - t));
    drawing.add_closed(li, Point::new(sw - t, y0 + t), Point::new(sw, y0 + t), Point::new(sw, g2_lo), Point::new(sw - t, g2_lo));
    drawing.add_closed(li, Point::new(sw - t, g2_hi), Point::new(sw, g2_hi), Point::new(sw, top - t), Point::new(sw - t, top - t));

    drawing.add_open4(l, Point::new(e, y0), Point::new(w, y0), Point::new(w, top), Point::new(e, top));

    let px = w - d.post_inset;
    let ps = d.post_size;
    let py1 = y0 + d.post_inset;
    let py2 = top - d.post_inset - d.post_size;
    drawing.add_closed(l, Point::new(px, py1), Point::new(px + ps, py1), Point::new(px + ps, py1 + ps), Point::new(px, py1 + ps));
    drawing.add_closed(l, Point::new(px, py2), Point::new(px + ps, py2), Point::new(px + ps, py2 + ps), Point::new(px, py2 + ps));
    assert(drawing@ =~= old(drawing)@ + walls_model(*d));
}

/// The three doors: entrance into the wash room through the south wall, sauna to wash
/// room through the first partition, wash room to changing room through the second.
/// The two inner doors are hinged at an edge of their partition's opening. Each leaf
/// swings into the room being entered: the entrance and the sauna door open east into
/// the wash room from the north side of their openings' west ends, the changing-room
/// door opens east into the changing room.
pub open spec fn doors_model(d: Dimensions) -> Seq<SpecEntity> {
    let t = d.wall_thickness as int;
    let dw = d.door_width as int;
    door_model(d.sauna_width + ENTRY_DOOR_OFFSET, deck_y(d) + t, dw, 90, true)
        + door_model(d.sauna_width - t, sauna_door_gap(d).0, dw, 0, false)
        + door_model(d.sauna_width + d.wash_width, seating_door_gap(d).1, dw, 0, true)
}

fn draw_doors(drawing: &mut Drawing, d: &Dimensions)
    requires
        d.wf(),
    ensures
        final(drawing)@ == old(drawing)@ + doors_model(*d),
{
    let t = d.wall_thickness;
    let dw = d.door_width;
    let y0 = d.deck_depth;
    let top = d.deck_depth + d.building_depth;
    draw_door(drawing, d.sauna_width + ENTRY_DOOR_OFFSET, y0 + t, dw, 90, true);
    draw_door(drawing, d.sauna_width - t, y0 + t + d.door_margin, dw, 0, false);
    draw_door(drawing, d.sauna_width + d.wash_width, top - t - d.door_margin, dw, 0, true);
    assert(drawing@ =~= old(drawing)@ + doors_model(*d));
}

/// A window centred in the sauna's west wall, and one centred in the north wall of
/// the sauna and of the changing room.
#[verifier::opaque]
pub open spec fn windows_model(d: Dimensions) -> Seq<SpecEntity> {
    let t = d.wall_thickness as int;
    let ww = d.window_width as int;
    let hw = ww / 2;
    let north = building_top(d) - t;
    let seating_x = d.sauna_width + d.wash_width;
    window_model(0, deck_y(d) + (d.building_depth as int) / 2 - hw, ww, t, false)
        + window_model((d.sauna_width as int) / 2 - hw, north, ww, t, true)
        + window_model(seating_x + (d.seating_width as int) / 2 - hw, north, ww, t, true)
}

fn draw_windows(drawing: &mut Drawing, d: &Dimensions)
    requires
        d.wf(),
    ensures
        final(drawing)@ == old(drawing)@ + windows_model(*d),
{
    proof {
        reveal(windows_model);
    }
    let t = d.wall_thickness;
    let ww = d.window_width;
    let hw = fraction(ww, 1, 2);
    let north = d.deck_depth + d.building_depth - t;
    let seating_x = d.sauna_width + d.wash_width;
    draw_window(drawing, 0, d.deck_depth + fraction(d.building_depth, 1, 2) - hw, ww, t, false);
    draw_window(drawing, fraction(d.sauna_width, 1, 2) - hw, north, ww, t, true);
    draw_window(drawing, seating_x + fraction(d.seating_width, 1, 2) - hw, north, ww, t, true);
    assert(drawing@ =~= old(drawing)@ + windows_model(*d));
}

/// The terrace slab across the full width and its boards.
#[verifier::opaque]
pub open spec fn deck_model(d: Dimensions) -> Seq<SpecEntity> {
    let w = d.spec_total_width();
    let y0 = deck_y(d);
    seq![closed_model(Layer::Deck, spt(0, 0), spt(w, 0), spt(w, y0), spt(0, y0))]
        + deck_pattern_model(0, 0, w, y0)
}

fn draw_deck(drawing: &mut Drawing, d: &Dimensions)
    requires
        d.wf(),
    ensures
        final(drawing)@ == old(drawing)@ + deck_model(*d),
{
    proof {
        reveal(deck_model);
    }
    let w = d.total_width();
    let y0 = d.deck_depth;
    drawing.add_closed(Layer::Deck, Point::new(0, 0), Point::new(w, 0), Point::new(w, y0), Point::new(0, y0));
    draw_deck_pattern(drawing, 0, 0, w, y0);
    assert(drawing@ =~= old(drawing)@ + deck_model(*d));
}

/// Clearance between the hot tub and its enclosure on either side.
pub const TUB_ENCLOSURE_MARGIN: i64 = 100;
/// Thickness of the hot tub's shell, between its rim and the water line.
pub const TUB_SHELL: i64 = 150;

/// Centre of the hot tub: measured from the east edge, and south of the terrace so
/// that the tub reaches `hot_tub_offset_y` onto it.
pub open spec fn hot_tub_center(d: Dimensions) -> SpecPoint {
    spt(d.spec_total_width() - d.hot_tub_offset_x, -d.spec_hot_tub_radius() + d.hot_tub_offset_y)
}

/// The enclosure across the terrace, the tub's rim and its water line.
#[verifier::opaque]
pub open spec fn hot_tub_model(d: Dimensions) -> Seq<SpecEntity> {
    let c = hot_tub_center(d);
    let r = d.spec_hot_tub_radius();
    let x1 = c.x - r - TUB_ENCLOSURE_MARGIN;
    let x2 = c.x + r + TUB_ENCLOSURE_MARGIN;
    let y0 = deck_y(d);
    seq![
        closed_model(Layer::HotTub, spt(x1, y0), spt(x2, y0), spt(x2, 0), spt(x1, 0)),
        circle_model(Layer::HotTub, c, r),
        circle_model(Layer::HotTub, c, r - TUB_SHELL),
    ]
}

fn draw_hot_tub(drawing: &mut Drawing, d: &Dimensions)
    requires
        d.wf(),
    ensures
        final(drawing)@ == old(drawing)@ + hot_tub_model(*d),
{
    proof {
        reveal(hot_tub_model);
    }
    let r = d.hot_tub_radius();
    let cx = d.total_width() - d.hot_tub_offset_x;
    let cy = -r + d.hot_tub_offset_y;
    let x1 = cx - r - TUB_ENCLOSURE_MARGIN;
    let x2 = cx + r + TUB_ENCLOSURE_MARGIN;
    let y0 = d.deck_depth;
    drawing.add_closed(Layer::HotTub, Point::new(x1, y0), Point::new(x2, y0), Point::new(x2, 0), Point::new(x1, 0));
    drawing.add_circle(Layer::HotTub, Point::new(cx, cy), r);
    drawing.add_circle(Layer::HotTub, Point::new(cx, cy), r - TUB_SHELL);
    assert(drawing@ =~= old(drawing)@ + hot_tub_model(*d));
}

/// Free space between the heater and the sauna's walls.
pub const HEATER_CLEARANCE: i64 = 200;
/// Gap between a bench and the sauna's walls.
pub const BENCH_INSET: i64 = 100;

/// The heater in the sauna's south-west corner and the two benches along its north wall.
#[verifier::opaque]
pub open spec fn fixtures_model(d: Dimensions) -> Seq<SpecEntity> {
    let t = d.wall_thickness as int;
    let hr = (d.heater_diameter as int) / 2;
    let bd = d.bench_depth as int;
    let x1 = t + BENCH_INSET;
    let x2 = d.sauna_width - t - BENCH_INSET;
    let inner_north = deck_y(d) + d.building_depth - t;
    let lower_y1 = inner_north - bd;
    let lower_y2 = inner_north - BENCH_INSET;
    let upper_y1 = inner_north - bd * 2 - BENCH_INSET;
    let upper_y2 = inner_north - bd - 2 * BENCH_INSET;
    seq![
        circle_model(
            Layer::Fixtures,
            spt(t + hr + HEATER_CLEARANCE, deck_y(d) + t + hr + HEATER_CLEARANCE),
            hr,
        ),
        closed_model(Layer::Fixtures, spt(x1, lower_y1), spt(x2, lower_y1), spt(x2, lower_y2), spt(x1, lower_y2)),
        closed_model(Layer::Fixtures, spt(x1, upper_y1), spt(x2, upper_y1), spt(x2, upper_y2), spt(x1, upper_y2)),
    ]
}

fn draw_fixtures(drawing: &mut Drawing, d: &Dimensions)
    requires
        d.wf(),
    ensures
        final(drawing)@ == old(drawing)@ + fixtures_model(*d),
{
    proof {
        reveal(fixtures_model);
    }
    let t = d.wall_thickness;
    let hr = fraction(d.heater_diameter, 1, 2);
    let bd = d.bench_depth;
    let x1 = t + BENCH_INSET;
    let x2 = d.sauna_width - t - BENCH_INSET;
    let inner_north = d.deck_depth + d.building_depth - t;
    let lower_y1 = inner_north - bd;
    let lower_y2 = inner_north - BENCH_INSET;
    let upper_y1 = inner_north - bd * 2 - BENCH_INSET;
    let upper_y2 = inner_north - bd - 2 * BENCH_INSET;
    drawing.add_circle(
        Layer::Fixtures,
        Point::new(t + hr + HEATER_CLEARANCE, d.deck_depth + t + hr + HEATER_CLEARANCE),
        hr,
    );
    drawing.add_closed(Layer::Fixtures, Point::new(x1, lower_y1), Point::new(x2, lower_y1), Point::new(x2, lower_y2), Point::new(x1, lower_y2));
    drawing.add_closed(Layer::Fixtures, Point::new(x1, upper_y1), Point::new(x2, upper_y1), Point::new(x2, upper_y2), Point::new(x1, upper_y2));
    assert(drawing@ =~= old(drawing)@ + fixtures_model(*d));
}

/// How far west of the hot tub's centre its label starts.
pub const TUB_LABEL_SHIFT: i64 = 300;

/// Text of the hot tub label: `HOT TUB`, a line break, then its diameter.
pub open spec fn hot_tub_label(d: Dimensions) -> Seq<char> {
    "HOT TUB\n"@ + metres_text(d.hot_tub_diameter as int) + "m dia."@
}

/// Each room's name and area at its centre, and the hot tub's label.
#[verifier::opaque]
pub open spec fn room_labels_model(d: Dimensions) -> Seq<SpecEntity> {
    let mid_y = (deck_y(d) + building_top(d)) / 2;
    let s = d.sauna_width as int;
    let sw = d.sauna_width + d.wash_width;
    let c = hot_tub_center(d);
    room_label_model(s / 2, mid_y, "SAUNA"@, spec_sauna_area(d))
        + room_label_model(s + (d.wash_width as int) / 2, mid_y, "WASH"@, spec_wash_area(d))
        + room_label_model(sw + (d.seating_width as int) / 2, mid_y, "CHANGING"@, spec_seating_area(d))
        + room_label_model(
            d.spec_enclosed_width() + (d.outdoor_seating_width as int) / 2,
            mid_y,
            "DECK"@,
            spec_outdoor_area(d),
        )
        + room_label_model(d.spec_total_width() / 3, deck_y(d) / 2, "TERRACE"@, spec_deck_area(d))
        + seq![text_model(Layer::Text, spt(c.x - TUB_LABEL_SHIFT, c.y), DIM_TEXT_HEIGHT as int, 0, hot_tub_label(d))]
}

fn draw_room_labels(drawing: &mut Drawing, d: &Dimensions)
    requires
        d.wf(),
    ensures
        final(drawing)@ == old(drawing)@ + room_labels_model(*d),
{
    proof {
        reveal(room_labels_model);
    }
    let mid_y = fraction(d.deck_depth + d.deck_depth + d.building_depth, 1, 2);
    let s = d.sauna_width;
    let sw = d.sauna_width + d.wash_width;
    draw_room_label(drawing, fraction(s, 1, 2), mid_y, "SAUNA", sauna_area(d));
    draw_room_label(drawing, s + fraction(d.wash_width, 1, 2), mid_y, "WASH", wash_area(d));
    draw_room_label(drawing, sw + fraction(d.seating_width, 1, 2), mid_y, "CHANGING", seating_area(d));
    draw_room_label(
        drawing,
        d.enclosed_width() + fraction(d.outdoor_seating_width, 1, 2),
        mid_y,
        "DECK",
        outdoor_area(d),
    );
    draw_room_label(drawing, fraction(d.total_width(), 1, 3), fraction(d.deck_depth, 1, 2), "TERRACE", deck_area(d));
    let r = d.hot_tub_radius();
    let cx = d.total_width() - d.hot_tub_offset_x;
    let cy = -r + d.hot_tub_offset_y;
    let mut label = String::from_str("HOT TUB\n");
    let diameter = metres_string(d.hot_tub_diameter);
    label.append(diameter.as_str());
    label.append("m dia.");
    drawing.add_text(Layer::Text, Point::new(cx - TUB_LABEL_SHIFT, cy), DIM_TEXT_HEIGHT, 0, label);
    assert(drawing@ =~= old(drawing)@ + room_labels_model(*d));
}

/// The overall width below the hot tub, the chain of room widths along the terrace
/// edge, the overall depth and the chain of terrace and building depth at the west
/// side, and the wall thickness note.
#[verifier::opaque]
pub open spec fn dimensions_model(d: Dimensions) -> Seq<SpecEntity> {
    let y0 = deck_y(d);
    let top = building_top(d);
    let s = d.sauna_width as int;
    let sw = d.sauna_width + d.wash_width;
    let e = d.spec_enclosed_width();
    let w = d.spec_total_width();
    let off = DIM_OFFSET as int;
    let empty = Seq::<char>::empty();
    dim_horizontal_model(0, w, -d.spec_hot_tub_radius() - 500, -off * 2, empty)
        + dim_horizontal_model(0, s, y0, -off, empty)
        + dim_horizontal_model(s, sw, y0, -off, empty)
        + dim_horizontal_model(sw, sw + d.seating_width, y0, -off, empty)
        + dim_horizontal_model(e, w, y0, -off, empty)
        + dim_vertical_model(0, 0, top, -off * 2, empty)
        + dim_vertical_model(0, 0, y0, -off, empty)
        + dim_vertical_model(0, y0, top, -off, empty)
        + seq![
            text_model(
                Layer::Annotation,
                spt(-off * 3, top / 2),
                DIM_TEXT_HEIGHT * 8 / 10,
                90,
                "WALLS: "@ + integer_text(d.wall_thickness as int) + "mm"@,
            ),
        ]
}

fn draw_dimensions(drawing: &mut Drawing, d: &Dimensions)
    requires
        d.wf(),
    ensures
        final(drawing)@ == old(drawing)@ + dimensions_model(*d),
{
    proof {
        reveal(dimensions_model);
    }
    let y0 = d.deck_depth;
    let top = d.deck_depth + d.building_depth;
    let s = d.sauna_width;
    let sw = d.sauna_width + d.wash_width;
    let e = d.enclosed_width();
    let w = d.total_width();
    proof {
        reveal_strlit("");
    }
    draw_dim_horizontal(drawing, 0, w, -d.hot_tub_radius() - 500, -DIM_OFFSET * 2, "");
    draw_dim_horizontal(drawing, 0, s, y0, -DIM_OFFSET, "");
    draw_dim_horizontal(drawing, s, sw, y0, -DIM_OFFSET, "");
    draw_dim_horizontal(drawing, sw, sw + d.seating_width, y0, -DIM_OFFSET, "");
    draw_dim_horizontal(drawing, e, w, y0, -DIM_OFFSET, "");
    draw_dim_vertical(drawing, 0, 0, top, -DIM_OFFSET * 2, "");
    draw_dim_vertical(drawing, 0, 0, y0, -DIM_OFFSET, "");
    draw_dim_vertical(drawing, 0, y0, top, -DIM_OFFSET, "");
    let mut note = String::from_str("WALLS: ");
    let mm = integer_string(d.wall_thickness);
    note.append(mm.as_str());
    note.append("mm");
    drawing.add_text(
        Layer::Annotation,
        Point::new(-DIM_OFFSET * 3, fraction(top, 1, 2)),
        DIM_TEXT_HEIGHT * 8 / 10,
        90,
        note,
    );
    assert(drawing@ =~= old(drawing)@ + dimensions_model(*d));
}

/// The north arrow west of the plan, the title block below it on the east side, and
/// the sheet border.
#[verifier::opaque]
pub open spec fn annotations_model(d: Dimensions) -> Seq<SpecEntity> {
    let w = d.spec_total_width();
    let north = building_top(d);
    let south = -d.spec_hot_tub_radius();
    north_arrow_model(-1000, north + 500, 500)
        + title_block_model(w - 4000, south - 2000, 4000, 1500)
        + seq![
            closed_model(
                Layer::TitleBlock,
                spt(-2000, south - 2500),
                spt(w + 1000, south - 2500),
                spt(w + 1000, north + 1500),
                spt(-2000, north + 1500),
            ),
        ]
}

fn draw_annotations(drawing: &mut Drawing, d: &Dimensions)
    requires
        d.wf(),
    ensures
        final(drawing)@ == old(drawing)@ + annotations_model(*d),
{
    proof {
        reveal(annotations_model);
    }
    let w = d.total_width();
    let north = d.deck_depth + d.building_depth;
    let south = -d.hot_tub_radius();
    draw_north_arrow(drawing, -1000, north + 500, 500);
    draw_title_block(drawing, w - 4000, south - 2000, 4000, 1500);
    drawing.add_closed(
        Layer::TitleBlock,
        Point::new(-2000, south - 2500),
        Point::new(w + 1000, south - 2500),
        Point::new(w + 1000, north + 1500),
        Point::new(-2000, north + 1500),
    );
    assert(drawing@ =~= old(drawing)@ + annotations_model(*d));
}

/// Everything the floor plan draws, in drawing order.
pub open spec fn floor_plan_model(d: Dimensions) -> Seq<SpecEntity> {
    walls_model(d) + doors_model(d) + windows_model(d) + deck_model(d) + hot_tub_model(d)
        + fixtures_model(d) + room_labels_model(d) + dimensions_model(d) + annotations_model(d)
}

/// Draws the whole floor plan.
pub fn draw_floor_plan(drawing: &mut Drawing, d: &Dimensions)
    requires
        d.wf(),
    ensures
        final(drawing)@ == old(drawing)@ + floor_plan_model(*d),
{
    let ghost start = drawing@;
    draw_walls(drawing, d);
    draw_doors(drawing, d);
    draw_windows(drawing, d);
    let ghost openings = drawing@;
    assert(openings =~= start + (walls_model(*d) + doors_model(*d) + windows_model(*d)));
    draw_deck(drawing, d);
    draw_hot_tub(drawing, d);
    draw_fixtures(drawing, d);
    let ghost outside = drawing@;
    assert(outside =~= openings + (deck_model(*d) + hot_tub_model(*d) + fixtures_model(*d)));
    draw_room_labels(drawing, d);
    draw_dimensions(drawing, d);
    draw_annotations(drawing, d);
    assert(drawing@ =~= outside + (room_labels_model(*d) + dimensions_model(*d) + annotations_model(*d)));
    assert(drawing@ =~= old(drawing)@ + floor_plan_model(*d));
}

/// The dimension line of the `k`-th dimension in a run of dimensions, each of which
/// is six shapes with its dimension line third.
pub open spec fn dimension_line(m: Seq<SpecEntity>, k: int) -> SpecEntity {
    m[6 * k + 2]
}

/// Length of a line along x.
pub open spec fn x_span(e: SpecEntity) -> int {
    line_end(e).x - line_start(e).x
}

/// Length of a line along y.
pub open spec fn y_span(e: SpecEntity) -> int {
    line_end(e).y - line_start(e).y
}

/// Where the dimensions start among the floor plan's shapes.
pub open spec fn dimensions_start(d: Dimensions) -> int {
    (walls_model(d) + doors_model(d) + windows_model(d) + deck_model(d) + hot_tub_model(d)
        + fixtures_model(d) + room_labels_model(d)).len() as int
}

proof fn lemma_plan_parts(d: Dimensions)
    ensures
        floor_plan_model(d).skip(dimensions_start(d)).take(49) == dimensions_model(d),
        floor_plan_model(d).take(11) == walls_model(d),
        floor_plan_model(d).skip(11).take(9) == doors_model(d),
{
    lemma_dimension_chains_model(d);
    let p = floor_plan_model(d);
    let k = dimensions_start(d);
    let before = walls_model(d) + doors_model(d) + windows_model(d) + deck_model(d)
        + hot_tub_model(d) + fixtures_model(d) + room_labels_model(d);
    assert(p =~= before + dimensions_model(d) + annotations_model(d));
    assert(p.skip(k).take(49) =~= dimensions_model(d));
    assert(p.take(11) =~= walls_model(d));
    assert(p.skip(11).take(9) =~= doors_model(d));
}

proof fn lemma_dimension_chains_model(d: Dimensions)
    ensures
        dimensions_model(d).len() == 49,
        ({
            let m = dimensions_model(d);
            let overall = dimension_line(m, 0);
            &&& line_start(overall).x == 0
            &&& line_end(overall).x == d.spec_total_width()
            &&& line_start(dimension_line(m, 1)).x == line_start(overall).x
            &&& line_end(dimension_line(m, 1)).x == line_start(dimension_line(m, 2)).x
            &&& line_end(dimension_line(m, 2)).x == line_start(dimension_line(m, 3)).x
            &&& line_end(dimension_line(m, 3)).x == line_start(dimension_line(m, 4)).x
            &&& line_end(dimension_line(m, 4)).x == line_end(overall).x
            &&& x_span(dimension_line(m, 1)) + x_span(dimension_line(m, 2)) + x_span(
                dimension_line(m, 3),
            ) + x_span(dimension_line(m, 4)) == x_span(overall)
        }),
        ({
            let m = dimensions_model(d);
            let overall = dimension_line(m, 5);
            &&& line_start(dimension_line(m, 6)).y == line_start(overall).y
            &&& line_end(dimension_line(m, 6)).y == line_start(dimension_line(m, 7)).y
            &&& line_end(dimension_line(m, 7)).y == line_end(overall).y
            &&& y_span(dimension_line(m, 6)) + y_span(dimension_line(m, 7)) == y_span(overall)
        }),
{
    reveal(dimensions_model);
}

/// The floor plan's dimension chains are consistent. Along x, the four room widths
/// (sauna, wash room, changing room, covered deck) abut end to end, start where the
/// overall width starts, end where it ends, and add up to it. Along y, the terrace
/// depth and the building depth do the same for the overall depth.
pub proof fn lemma_dimension_chains(d: Dimensions)
    requires
        d.wf(),
    ensures
        ({
            let m = floor_plan_model(d).skip(dimensions_start(d));
            let overall = dimension_line(m, 0);
            &&& line_start(overall).x == 0
            &&& line_end(overall).x == d.spec_total_width()
            &&& line_start(dimension_line(m, 1)).x == line_start(overall).x
            &&& line_end(dimension_line(m, 1)).x == line_start(dimension_line(m, 2)).x
            &&& line_end(dimension_line(m, 2)).x == line_start(dimension_line(m, 3)).x
            &&& line_end(dimension_line(m, 3)).x == line_start(dimension_line(m, 4)).x
            &&& line_end(dimension_line(m, 4)).x == line_end(overall).x
            &&& x_span(dimension_line(m, 1)) + x_span(dimension_line(m, 2)) + x_span(
                dimension_line(m, 3),
            ) + x_span(dimension_line(m, 4)) == x_span(overall)
        }),
        ({
            let m = floor_plan_model(d).skip(dimensions_start(d));
            let overall = dimension_line(m, 5);
            &&& line_start(dimension_line(m, 6)).y == line_start(overall).y
            &&& line_end(dimension_line(m, 6)).y == line_start(dimension_line(m, 7)).y
            &&& line_end(dimension_line(m, 7)).y == line_end(overall).y
            &&& y_span(dimension_line(m, 6)) + y_span(dimension_line(m, 7)) == y_span(overall)
        }),
{
    lemma_dimension_chains_model(d);
    lemma_plan_parts(d);
    let m = floor_plan_model(d).skip(dimensions_start(d));
    let dims = dimensions_model(d);
    assert forall|k: int| 0 <= k < 8 implies dimension_line(m, k) == dimension_line(dims, k) by {
        assert(m.take(49)[6 * k + 2] == dims[6 * k + 2]);
    }
}

/// The y-range between the top edge of a lower wall segment and the bottom edge of
/// the upper one.
pub open spec fn gap_between(lower: SpecEntity, upper: SpecEntity) -> (int, int) {
    (vertices_of(lower)[2].y, vertices_of(upper)[0].y)
}

/// The y-range a line covers.
pub open spec fn y_range(e: SpecEntity) -> (int, int) {
    let a = line_start(e).y;
    let b = line_end(e).y;
    if a <= b {
        (a, b)
    } else {
        (b, a)
    }
}

/// Each inner door fits its partition's opening, in the floor plan as drawn (walls
/// first, then doors): the door's threshold covers exactly the gap between the
/// partition's two segments, on a face of the partition, and the door's swing has the
/// gap's width as radius. The doors are shapes 11 to 19, three each. (The entrance
/// door is in the south wall, which is drawn without an opening.)
pub proof fn lemma_doors_fit_partitions(d: Dimensions)
    requires
        d.wf(),
        d.door_width >= 0,
    ensures
        ({
            let p = floor_plan_model(d);
            let gap = gap_between(p[4], p[5]);
            &&& gap == sauna_door_gap(d)
            &&& y_range(p[16]) == gap
            &&& line_start(p[16]).x == line_end(p[16]).x == vertices_of(p[4])[0].x
            &&& radius_of(p[15]) == gap.1 - gap.0
        }),
        ({
            let p = floor_plan_model(d);
            let gap = gap_between(p[6], p[7]);
            &&& gap == seating_door_gap(d)
            &&& y_range(p[19]) == gap
            &&& line_start(p[19]).x == line_end(p[19]).x == vertices_of(p[6])[1].x
            &&& radius_of(p[18]) == gap.1 - gap.0
        }),
{
    lemma_plan_parts(d);
    let p = floor_plan_model(d);
    assert(p[4] == p.take(11)[4] && p[5] == p.take(11)[5]);
    assert(p[6] == p.take(11)[6] && p[7] == p.take(11)[7]);
    assert forall|j: int| 0 <= j < 9 implies p[11 + j] == doors_model(d)[j] by {
        assert(p.skip(11).take(9)[j] == p[11 + j]);
    }
}

/// Every door swings into the room being entered. The entrance leaf closes from the
/// south wall's inner face northwards and sweeps the quarter to its east, inside the
/// wash room; the sauna door's leaf closes eastwards from the sauna/wash partition and
/// sweeps into the wash room; the changing-room door's leaf closes eastwards from the
/// wash/changing partition and sweeps into the changing room.
pub proof fn lemma_doors_swing_into_rooms(d: Dimensions)
    requires
        d.wf(),
    ensures
        ({
            let p = floor_plan_model(d);
            let entry = spt(d.sauna_width + ENTRY_DOOR_OFFSET, deck_y(d) + d.wall_thickness);
            &&& line_start(p[11]) == entry
            &&& line_end(p[11]) == spt(entry.x, entry.y + d.door_width)
            &&& arc_angles(p[12]) == (0int, 90int)
            &&& line_end(p[13]) == spt(entry.x + d.door_width, entry.y)
        }),
        ({
            let p = floor_plan_model(d);
            let hinge = spt(d.sauna_width - d.wall_thickness, sauna_door_gap(d).0);
            &&& line_start(p[14]) == hinge
            &&& line_end(p[14]) == spt(hinge.x + d.door_width, hinge.y)
            &&& arc_angles(p[15]) == (0int, 90int)
            &&& d.door_width > d.wall_thickness ==> line_end(p[14]).x > d.sauna_width
        }),
        ({
            let p = floor_plan_model(d);
            let hinge = spt(d.sauna_width + d.wash_width, seating_door_gap(d).1);
            &&& line_start(p[17]) == hinge
            &&& line_end(p[17]) == spt(hinge.x + d.door_width, hinge.y)
            &&& arc_angles(p[18]) == (-90int, 0int)
            &&& d.door_width > 0 ==> line_end(p[17]).x > d.sauna_width + d.wash_width
        }),
{
    lemma_plan_parts(d);
    let p = floor_plan_model(d);
    assert forall|j: int| 0 <= j < 9 implies p[11 + j] == doors_model(d)[j] by {
        assert(p.skip(11).take(9)[j] == p[11 + j]);
    }
}

} // verus!
