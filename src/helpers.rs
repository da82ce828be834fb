//! Drawing helpers shared by every view: dimension lines, doors, windows,
//! deck boards, room labels, the north arrow and the title block.

use vstd::prelude::*;
use vstd::string::*;
use crate::dimensions::{
    DECK_BOARD_GAP, DECK_BOARD_WIDTH, DIM_TEXT_HEIGHT, DIM_TICK_SIZE, DRAWING_SCALE,
    LABEL_TEXT_HEIGHT, TITLE_TEXT_HEIGHT,
};
use crate::geometry::{
    arc_angles, arc_model, closed_model, fraction, in_coord, line_model, polyline_model, spt, text_model,
    Drawing, Layer, Point, SpecEntity,
};
use crate::text::{abs, area_string, area_text, metres_2dp_string, metres_2dp_text, TEXT_LIMIT};

verus! {

/// Text of a measured length: the prefix, then the length in metres with two decimals.
pub open spec fn dim_label(prefix: Seq<char>, length: int) -> Seq<char> {
    prefix + metres_2dp_text(length)
}

/// A horizontal dimension of `x1..x2`, measured at height `y`, drawn `offset` above it:
/// two extension lines, the dimension line, a tick at each end and the centred length.
pub open spec fn dim_horizontal_model(
    x1: int,
    x2: int,
    y: int,
    offset: int,
    prefix: Seq<char>,
) -> Seq<SpecEntity> {
    let dy = y + offset;
    let t = DIM_TICK_SIZE as int;
    seq![
        line_model(Layer::Dimensions, spt(x1, y), spt(x1, dy + t)),
        line_model(Layer::Dimensions, spt(x2, y), spt(x2, dy + t)),
        line_model(Layer::Dimensions, spt(x1, dy), spt(x2, dy)),
        line_model(Layer::Dimensions, spt(x1 - t, dy - t), spt(x1 + t, dy + t)),
        line_model(Layer::Dimensions, spt(x2 - t, dy - t), spt(x2 + t, dy + t)),
        text_model(
            Layer::Dimensions,
            spt((x1 + x2) / 2, dy + DIM_TEXT_HEIGHT / 2),
            DIM_TEXT_HEIGHT as int,
            0,
            dim_label(prefix, abs(x2 - x1) as int),
        ),
    ]
}

/// A vertical dimension of `y1..y2`, measured at `x`, drawn `offset` to the right of it;
/// the text is turned a quarter turn.
pub open spec fn dim_vertical_model(
    x: int,
    y1: int,
    y2: int,
    offset: int,
    prefix: Seq<char>,
) -> Seq<SpecEntity> {
    let dx = x + offset;
    let t = DIM_TICK_SIZE as int;
    seq![
        line_model(Layer::Dimensions, spt(x, y1), spt(dx + t, y1)),
        line_model(Layer::Dimensions, spt(x, y2), spt(dx + t, y2)),
        line_model(Layer::Dimensions, spt(dx, y1), spt(dx, y2)),
        line_model(Layer::Dimensions, spt(dx - t, y1 - t), spt(dx + t, y1 + t)),
        line_model(Layer::Dimensions, spt(dx - t, y2 - t), spt(dx + t, y2 + t)),
        text_model(
            Layer::Dimensions,
            spt(dx + DIM_TEXT_HEIGHT / 2, (y1 + y2) / 2),
            DIM_TEXT_HEIGHT as int,
            90,
            dim_label(prefix, abs(y2 - y1) as int),
        ),
    ]
}

fn dim_text(prefix: &str, a: i64, b: i64) -> (r: String)
    requires
        in_coord(a as int),
        in_coord(b as int),
    ensures
        r@ == dim_label(prefix@, abs(b - a) as int),
{
    let length = if b >= a { b - a } else { a - b };
    let label = metres_2dp_string(length);
    let mut s = String::from_str(prefix);
    s.append(label.as_str());
    s
}

/// Draws a horizontal dimension line.
pub fn draw_dim_horizontal(drawing: &mut Drawing, x1: i64, x2: i64, y: i64, offset: i64, prefix: &str)
    requires
        in_coord(x1 as int),
        in_coord(x2 as int),
        in_coord(y as int),
        in_coord(offset as int),
    ensures
        final(drawing)@ == old(drawing)@ + dim_horizontal_model(
            x1 as int,
            x2 as int,
            y as int,
            offset as int,
            prefix@,
        ),
{
    let dim_y = y + offset;
    let t = DIM_TICK_SIZE;
    let l = Layer::Dimensions;
    drawing.add_line(l, Point::new(x1, y), Point::new(x1, dim_y + t));
    drawing.add_line(l, Point::new(x2, y), Point::new(x2, dim_y + t));
    drawing.add_line(l, Point::new(x1, dim_y), Point::new(x2, dim_y));
    drawing.add_line(l, Point::new(x1 - t, dim_y - t), Point::new(x1 + t, dim_y + t));
    drawing.add_line(l, Point::new(x2 - t, dim_y - t), Point::new(x2 + t, dim_y + t));
    let mid = fraction(x1 + x2, 1, 2);
    let value = dim_text(prefix, x1, x2);
    drawing.add_text(l, Point::new(mid, dim_y + DIM_TEXT_HEIGHT / 2), DIM_TEXT_HEIGHT, 0, value);
    assert(drawing@ =~= old(drawing)@ + dim_horizontal_model(
        x1 as int,
        x2 as int,
        y as int,
        offset as int,
        prefix@,
    ));
}

/// Draws a vertical dimension line.
pub fn draw_dim_vertical(drawing: &mut Drawing, x: i64, y1: i64, y2: i64, offset: i64, prefix: &str)
    requires
        in_coord(x as int),
        in_coord(y1 as int),
        in_coord(y2 as int),
        in_coord(offset as int),
    ensures
        final(drawing)@ == old(drawing)@ + dim_vertical_model(
            x as int,
            y1 as int,
            y2 as int,
            offset as int,
            prefix@,
        ),
{
    let dim_x = x + offset;
    let t = DIM_TICK_SIZE;
    let l = Layer::Dimensions;
    drawing.add_line(l, Point::new(x, y1), Point::new(dim_x + t, y1));
    drawing.add_line(l, Point::new(x, y2), Point::new(dim_x + t, y2));
    drawing.add_line(l, Point::new(dim_x, y1), Point::new(dim_x, y2));
    drawing.add_line(l, Point::new(dim_x - t, y1 - t), Point::new(dim_x + t, y1 + t));
    drawing.add_line(l, Point::new(dim_x - t, y2 - t), Point::new(dim_x + t, y2 + t));
    let mid = fraction(y1 + y2, 1, 2);
    let value = dim_text(prefix, y1, y2);
    drawing.add_text(l, Point::new(dim_x + DIM_TEXT_HEIGHT / 2, mid), DIM_TEXT_HEIGHT, 90, value);
    assert(drawing@ =~= old(drawing)@ + dim_vertical_model(
        x as int,
        y1 as int,
        y2 as int,
        offset as int,
        prefix@,
    ));
}

/// Largest magnitude of a door direction, in degrees.
pub const ANGLE_LIMIT: i64 = 3600;

/// Which quarter turn a whole number of right angles lands on: 0 east, 1 north,
/// 2 west, 3 south.
pub open spec fn quarter(angle: int) -> int {
    (angle / 90) % 4
}

/// The x component of a segment of length `len` pointing at `angle` (a multiple of 90°).
pub open spec fn along_x(len: int, angle: int) -> int {
    if quarter(angle) == 0 {
        len
    } else if quarter(angle) == 2 {
        -len
    } else {
        0
    }
}

/// The y component of a segment of length `len` pointing at `angle` (a multiple of 90°).
pub open spec fn along_y(len: int, angle: int) -> int {
    if quarter(angle) == 1 {
        len
    } else if quarter(angle) == 3 {
        -len
    } else {
        0
    }
}

/// The direction a door leaf reaches when fully open: a quarter turn from `direction`,
/// clockwise or counter-clockwise.
pub open spec fn open_direction(direction: int, swing_cw: bool) -> int {
    if swing_cw {
        direction - 90
    } else {
        direction + 90
    }
}

pub open spec fn min(a: int, b: int) -> int {
    if a <= b {
        a
    } else {
        b
    }
}

pub open spec fn max(a: int, b: int) -> int {
    if a <= b {
        b
    } else {
        a
    }
}

/// A door in plan: the closed leaf from the hinge along `direction`, the quarter-circle
/// swing about the hinge with the smaller angle first, and the threshold from the hinge
/// along the open direction.
pub open spec fn door_model(
    hinge_x: int,
    hinge_y: int,
    width: int,
    direction: int,
    swing_cw: bool,
) -> Seq<SpecEntity> {
    let open = open_direction(direction, swing_cw);
    let hinge = spt(hinge_x, hinge_y);
    seq![
        line_model(
            Layer::Doors,
            hinge,
            spt(hinge_x + along_x(width, direction), hinge_y + along_y(width, direction)),
        ),
        arc_model(Layer::Doors, hinge, width, min(direction, open), max(direction, open)),
        line_model(
            Layer::Doors,
            hinge,
            spt(hinge_x + along_x(width, open), hinge_y + along_y(width, open)),
        ),
    ]
}

/// An arc stored counter-clockwise over a quarter turn: the smaller angle first.
pub open spec fn quarter_swing(e: SpecEntity) -> bool {
    &&& arc_angles(e).0 <= arc_angles(e).1
    &&& arc_angles(e).1 - arc_angles(e).0 == 90
}

fn along(len: i64, angle: i64) -> (r: (i64, i64))
    requires
        in_coord(len as int),
        -2 * ANGLE_LIMIT <= angle <= 2 * ANGLE_LIMIT,
    ensures
        r.0 == along_x(len as int, angle as int),
        r.1 == along_y(len as int, angle as int),
{
    let turns = fraction(angle, 1, 90);
    let q = turns - 4 * fraction(turns, 1, 4);
    assert(q == quarter(angle as int));
    if q == 0 {
        (len, 0)
    } else if q == 1 {
        (0, len)
    } else if q == 2 {
        (-len, 0)
    } else {
        (0, -len)
    }
}

/// Draws a door with its swing. `direction` is where the closed leaf points, in
/// degrees and a multiple of 90; `swing_cw` turns the swing clockwise.
pub fn draw_door(
    drawing: &mut Drawing,
    hinge_x: i64,
    hinge_y: i64,
    width: i64,
    direction: i64,
    swing_cw: bool,
)
    requires
        in_coord(hinge_x as int),
        in_coord(hinge_y as int),
        in_coord(width as int),
        -ANGLE_LIMIT <= direction <= ANGLE_LIMIT,
        direction % 90 == 0,
    ensures
        final(drawing)@ == old(drawing)@ + door_model(
            hinge_x as int,
            hinge_y as int,
            width as int,
            direction as int,
            swing_cw,
        ),
        quarter_swing(final(drawing)@[old(drawing)@.len() as int + 1]),
{
    let hinge = Point::new(hinge_x, hinge_y);
    let leaf = along(width, direction);
    drawing.add_line(Layer::Doors, hinge, Point::new(hinge_x + leaf.0, hinge_y + leaf.1));
    let open = if swing_cw {
        direction - 90
    } else {
        direction + 90
    };
    let (start_angle, end_angle) = if direction <= open {
        (direction, open)
    } else {
        (open, direction)
    };
    drawing.add_arc(Layer::Doors, hinge, width, start_angle, end_angle);
    let sill = along(width, open);
    drawing.add_line(Layer::Doors, hinge, Point::new(hinge_x + sill.0, hinge_y + sill.1));
    assert(drawing@ =~= old(drawing)@ + door_model(
        hinge_x as int,
        hinge_y as int,
        width as int,
        direction as int,
        swing_cw,
    ));
}

/// A window in plan: a frame the size of the opening by the wall thickness, and the
/// glass line along its middle.
pub open spec fn window_model(
    x: int,
    y: int,
    width: int,
    wall_thickness: int,
    horizontal: bool,
) -> Seq<SpecEntity> {
    let t = wall_thickness;
    if horizontal {
        seq![
            closed_model(Layer::Windows, spt(x, y), spt(x + width, y), spt(x + width, y + t), spt(x, y + t)),
            line_model(Layer::Windows, spt(x, y + t / 2), spt(x + width, y + t / 2)),
        ]
    } else {
        seq![
            closed_model(Layer::Windows, spt(x, y), spt(x + t, y), spt(x + t, y + width), spt(x, y + width)),
            line_model(Layer::Windows, spt(x + t / 2, y), spt(x + t / 2, y + width)),
        ]
    }
}

/// Draws a window in a wall running along x (`horizontal`) or along y.
pub fn draw_window(
    drawing: &mut Drawing,
    x: i64,
    y: i64,
    width: i64,
    wall_thickness: i64,
    horizontal: bool,
)
    requires
        in_coord(x as int),
        in_coord(y as int),
        in_coord(width as int),
        in_coord(wall_thickness as int),
    ensures
        final(drawing)@ == old(drawing)@ + window_model(
            x as int,
            y as int,
            width as int,
            wall_thickness as int,
            horizontal,
        ),
{
    let t = wall_thickness;
    let half = fraction(t, 1, 2);
    if horizontal {
        drawing.add_closed(
            Layer::Windows,
            Point::new(x, y),
            Point::new(x + width, y),
            Point::new(x + width, y + t),
            Point::new(x, y + t),
        );
        drawing.add_line(Layer::Windows, Point::new(x, y + half), Point::new(x + width, y + half));
    } else {
        drawing.add_closed(
            Layer::Windows,
            Point::new(x, y),
            Point::new(x + t, y),
            Point::new(x + t, y + width),
            Point::new(x, y + width),
        );
        drawing.add_line(Layer::Windows, Point::new(x + half, y), Point::new(x + half, y + width));
    }
    assert(drawing@ =~= old(drawing)@ + window_model(
        x as int,
        y as int,
        width as int,
        wall_thickness as int,
        horizontal,
    ));
}

/// Distance between neighbouring deck board joints.
pub open spec fn board_pitch() -> int {
    DECK_BOARD_WIDTH + DECK_BOARD_GAP
}

/// How many joints lie strictly between `y1` and `y2`, one pitch apart from `y1`.
pub open spec fn board_count(y1: int, y2: int) -> nat {
    if y2 > y1 {
        ((y2 - y1 - 1) / board_pitch()) as nat
    } else {
        0
    }
}

/// Deck boards: a line across `x1..x2` at `y1 + k * pitch` for every `k >= 1` that
/// stays strictly below `y2`.
pub open spec fn deck_pattern_model(x1: int, y1: int, x2: int, y2: int) -> Seq<SpecEntity> {
    Seq::new(
        board_count(y1, y2),
        |k: int|
            line_model(
                Layer::DeckPattern,
                spt(x1, y1 + (k + 1) * board_pitch()),
                spt(x2, y1 + (k + 1) * board_pitch()),
            ),
    )
}

/// Draws the deck board joints inside a rectangle.
pub fn draw_deck_pattern(drawing: &mut Drawing, x1: i64, y1: i64, x2: i64, y2: i64)
    requires
        in_coord(x1 as int),
        in_coord(y1 as int),
        in_coord(x2 as int),
        in_coord(y2 as int),
    ensures
        final(drawing)@ == old(drawing)@ + deck_pattern_model(
            x1 as int,
            y1 as int,
            x2 as int,
            y2 as int,
        ),
{
    let pitch = DECK_BOARD_WIDTH + DECK_BOARD_GAP;
    let ghost model = deck_pattern_model(x1 as int, y1 as int, x2 as int, y2 as int);
    let ghost n = board_count(y1 as int, y2 as int);
    let mut y = y1 + pitch;
    let ghost mut k: int = 0;
    proof {
        lemma_board_count(y1 as int, y2 as int, 0);
    }
    while y < y2
        invariant
            in_coord(x1 as int),
            in_coord(x2 as int),
            in_coord(y1 as int),
            in_coord(y2 as int),
            pitch == board_pitch(),
            pitch == 160,
            model == deck_pattern_model(x1 as int, y1 as int, x2 as int, y2 as int),
            n == board_count(y1 as int, y2 as int),
            0 <= k,
            y == y1 + (k + 1) * pitch,
            k <= n,
            (y < y2) == (k < n),
            drawing@ == old(drawing)@ + model.take(k),
        decreases if y < y2 { y2 - y } else { 0 },
    {
        drawing.add_line(Layer::DeckPattern, Point::new(x1, y), Point::new(x2, y));
        assert(drawing@ =~= old(drawing)@ + model.take(k + 1));
        y = y + pitch;
        proof {
            k = k + 1;
            lemma_board_count(y1 as int, y2 as int, k);
        }
    }
    assert(model.take(k) =~= model);
}

proof fn lemma_board_count(y1: int, y2: int, k: int)
    requires
        0 <= k,
    ensures
        (y1 + (k + 1) * board_pitch() < y2) == (k < board_count(y1, y2)),
        y1 + (k + 1) * board_pitch() < y2 ==> k + 1 <= board_count(y1, y2),
{
    let p = board_pitch();
    if y2 > y1 {
        let m = y2 - y1 - 1;
        assert(((k + 1) * p <= m) == (k < m / p)) by (nonlinear_arith)
            requires
                p == 160,
                m >= 0,
                k >= 0,
        ;
    } else {
        assert((k + 1) * p > 0) by (nonlinear_arith)
            requires
                p == 160,
                k >= 0,
        ;
    }
}

/// A room label: the name above the anchor and the floor area below it.
pub open spec fn room_label_model(x: int, y: int, name: Seq<char>, area: int) -> Seq<SpecEntity> {
    let gap = LABEL_TEXT_HEIGHT * 6 / 10;
    seq![
        text_model(Layer::Text, spt(x, y + gap), LABEL_TEXT_HEIGHT as int, 0, name),
        text_model(Layer::Text, spt(x, y - gap), DIM_TEXT_HEIGHT as int, 0, area_text(area)),
    ]
}

/// Draws a room's name and its area (given in square millimetres).
pub fn draw_room_label(drawing: &mut Drawing, x: i64, y: i64, name: &str, area: i64)
    requires
        in_coord(x as int),
        in_coord(y as int),
        -TEXT_LIMIT <= area <= TEXT_LIMIT,
    ensures
        final(drawing)@ == old(drawing)@ + room_label_model(x as int, y as int, name@, area as int),
{
    let gap = LABEL_TEXT_HEIGHT * 6 / 10;
    drawing.add_text(Layer::Text, Point::new(x, y + gap), LABEL_TEXT_HEIGHT, 0, String::from_str(name));
    drawing.add_text(Layer::Text, Point::new(x, y - gap), DIM_TEXT_HEIGHT, 0, area_string(area));
    assert(drawing@ =~= old(drawing)@ + room_label_model(x as int, y as int, name@, area as int));
}

/// `size * tenths / 10`, rounded down.
pub open spec fn tenths_of(size: int, tenths: int) -> int {
    (size * tenths) / 10
}

/// A north arrow: the shaft, a closed arrow head and the letter N above it.
pub open spec fn north_arrow_model(x: int, y: int, size: int) -> Seq<SpecEntity> {
    let top = spt(x, y + size);
    seq![
        line_model(Layer::Annotation, spt(x, y), top),
        polyline_model(
            Layer::Annotation,
            seq![
                top,
                spt(x - tenths_of(size, 2), y + tenths_of(size, 7)),
                spt(x, y + tenths_of(size, 8)),
                spt(x + tenths_of(size, 2), y + tenths_of(size, 7)),
                top,
            ],
        ),
        text_model(
            Layer::Annotation,
            spt(x - tenths_of(size, 1), y + size + tenths_of(size, 2)),
            tenths_of(size, 3),
            0,
            seq!['N'],
        ),
    ]
}

/// Draws a north arrow of the given size.
pub fn draw_north_arrow(drawing: &mut Drawing, x: i64, y: i64, size: i64)
    requires
        in_coord(x as int),
        in_coord(y as int),
        in_coord(size as int),
    ensures
        final(drawing)@ == old(drawing)@ + north_arrow_model(x as int, y as int, size as int),
{
    let top = Point::new(x, y + size);
    drawing.add_line(Layer::Annotation, Point::new(x, y), top);
    let s2 = fraction(size, 2, 10);
    let s7 = fraction(size, 7, 10);
    let s8 = fraction(size, 8, 10);
    let left = Point::new(x - s2, y + s7);
    let notch = Point::new(x, y + s8);
    let right = Point::new(x + s2, y + s7);
    let head = vec![top, left, notch, right, top];
    proof {
        assert(crate::geometry::points_view(head@) =~= seq![
            top@,
            spt(x - tenths_of(size as int, 2), y + tenths_of(size as int, 7)),
            spt(x as int, y + tenths_of(size as int, 8)),
            spt(x + tenths_of(size as int, 2), y + tenths_of(size as int, 7)),
            top@,
        ]);
    }
    drawing.add_polyline(Layer::Annotation, head);
    proof {
        reveal_strlit("N");
    }
    let label = String::from_str("N");
    assert(label@ =~= seq!['N']);
    let s1 = fraction(size, 1, 10);
    let s3 = fraction(size, 3, 10);
    drawing.add_text(Layer::Annotation, Point::new(x - s1, y + size + s2), s3, 0, label);
    assert(drawing@ =~= old(drawing)@ + north_arrow_model(x as int, y as int, size as int));
}

pub const TITLE_DATE: &'static str = "DATE: 2026-01-03";

/// `v * hundredths / 100`, rounded down.
pub open spec fn hundredths_of(v: int, hundredths: int) -> int {
    (v * hundredths) / 100
}

/// The title block: its border, dividers at half and a quarter of its height, and the
/// project title, drawing title, scale and date.
pub open spec fn title_block_model(x: int, y: int, width: int, height: int) -> Seq<SpecEntity> {
    let left = x + hundredths_of(width, 5);
    seq![
        closed_model(Layer::TitleBlock, spt(x, y), spt(x + width, y), spt(x + width, y + height), spt(x, y + height)),
        line_model(Layer::TitleBlock, spt(x, y + hundredths_of(height, 50)), spt(x + width, y + hundredths_of(height, 50))),
        line_model(Layer::TitleBlock, spt(x, y + hundredths_of(height, 25)), spt(x + width, y + hundredths_of(height, 25))),
        text_model(Layer::TitleBlock, spt(left, y + hundredths_of(height, 70)), TITLE_TEXT_HEIGHT as int, 0, "SAUNA BUILDING"@),
        text_model(Layer::TitleBlock, spt(left, y + hundredths_of(height, 35)), LABEL_TEXT_HEIGHT as int, 0, "FLOOR PLAN & ELEVATIONS"@),
        text_model(Layer::TitleBlock, spt(left, y + hundredths_of(height, 10)), DIM_TEXT_HEIGHT as int, 0, "SCALE: "@ + DRAWING_SCALE@),
        text_model(Layer::TitleBlock, spt(x + hundredths_of(width, 50), y + hundredths_of(height, 10)), DIM_TEXT_HEIGHT as int, 0, TITLE_DATE@),
    ]
}

/// Draws the title block in the rectangle at `(x, y)` of the given size.
pub fn draw_title_block(drawing: &mut Drawing, x: i64, y: i64, width: i64, height: i64)
    requires
        in_coord(x as int),
        in_coord(y as int),
        in_coord(width as int),
        in_coord(height as int),
    ensures
        final(drawing)@ == old(drawing)@ + title_block_model(x as int, y as int, width as int, height as int),
{
    let l = Layer::TitleBlock;
    drawing.add_closed(l, Point::new(x, y), Point::new(x + width, y), Point::new(x + width, y + height), Point::new(x, y + height));
    let h50 = fraction(height, 50, 100);
    let h25 = fraction(height, 25, 100);
    drawing.add_line(l, Point::new(x, y + h50), Point::new(x + width, y + h50));
    drawing.add_line(l, Point::new(x, y + h25), Point::new(x + width, y + h25));
    let left = x + fraction(width, 5, 100);
    drawing.add_text(l, Point::new(left, y + fraction(height, 70, 100)), TITLE_TEXT_HEIGHT, 0, String::from_str("SAUNA BUILDING"));
    drawing.add_text(l, Point::new(left, y + fraction(height, 35, 100)), LABEL_TEXT_HEIGHT, 0, String::from_str("FLOOR PLAN & ELEVATIONS"));
    let h10 = fraction(height, 10, 100);
    let scale = String::from_str("SCALE: ").concat(DRAWING_SCALE);
    drawing.add_text(l, Point::new(left, y + h10), DIM_TEXT_HEIGHT, 0, scale);
    drawing.add_text(l, Point::new(x + fraction(width, 50, 100), y + h10), DIM_TEXT_HEIGHT, 0, String::from_str(TITLE_DATE));
    assert(drawing@ =~= old(drawing)@ + title_block_model(x as int, y as int, width as int, height as int));
}

} // verus!
