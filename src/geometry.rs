//! Shape primitives, layers and the append-only drawing they are collected in.

use vstd::prelude::*;

pub use crate::layers::Layer;

verus! {

/// Largest coordinate magnitude, in millimetres, that the drawing helpers accept.
pub const COORD_LIMIT: i64 = 1_000_000_000_000_000;

/// `v * num / den`, rounded down.
pub fn fraction(v: i64, num: i64, den: i64) -> (r: i64)
    requires
        -4 * COORD_LIMIT <= v <= 4 * COORD_LIMIT,
        -1000 <= num <= 1000,
        0 < den <= 1000,
    ensures
        r == (v * num) / (den as int),
{
    assert(-4000 * COORD_LIMIT <= v * num <= 4000 * COORD_LIMIT) by (nonlinear_arith)
        requires
            -4 * COORD_LIMIT <= v <= 4 * COORD_LIMIT,
            -1000 <= num <= 1000,
    ;
    let p = v * num;
    if p >= 0 {
        p / den
    } else {
        let q = (-p + den - 1) / den;
        assert(-(q as int) == (p as int) / (den as int)) by (nonlinear_arith)
            requires
                p < 0,
                den > 0,
                q as int == (-(p as int) + den - 1) / (den as int),
        ;
        -q
    }
}

pub open spec fn in_coord(v: int) -> bool {
    -COORD_LIMIT <= v <= COORD_LIMIT
}

/// Largest magnitude of the offset at which a view is placed on the sheet.
pub const OFFSET_LIMIT: i64 = 100_000_000_000_000;

pub open spec fn in_offset(v: int) -> bool {
    -OFFSET_LIMIT <= v <= OFFSET_LIMIT
}

/// A point of the drawing plane, in millimetres.
#[derive(Clone, Copy, Debug, PartialEq, Eq)]
pub struct Point {
    pub x: i64,
    pub y: i64,
}

/// The mathematical value of a point.
pub struct SpecPoint {
    pub x: int,
    pub y: int,
}

pub open spec fn spt(x: int, y: int) -> SpecPoint {
    SpecPoint { x, y }
}

impl View for Point {
    type V = SpecPoint;

    open spec fn view(&self) -> SpecPoint {
        spt(self.x as int, self.y as int)
    }
}

impl Point {
    pub fn new(x: i64, y: i64) -> (r: Point)
        ensures
            r@ == spt(x as int, y as int),
    {
        Point { x, y }
    }
}

/// One primitive shape.
#[derive(Clone, Debug, PartialEq)]
pub enum Shape {
    Line { start: Point, end: Point },
    Polyline { vertices: Vec<Point> },
    /// Angles in degrees, counter-clockwise from the x axis, `start_angle <= end_angle`.
    Arc { center: Point, radius: i64, start_angle: i64, end_angle: i64 },
    Circle { center: Point, radius: i64 },
    /// `rotation` in degrees.
    Text { location: Point, height: i64, rotation: i64, value: String },
}

/// The mathematical value of a shape.
pub enum SpecShape {
    Line { start: SpecPoint, end: SpecPoint },
    Polyline { vertices: Seq<SpecPoint> },
    Arc { center: SpecPoint, radius: int, start_angle: int, end_angle: int },
    Circle { center: SpecPoint, radius: int },
    Text { location: SpecPoint, height: int, rotation: int, value: Seq<char> },
}

pub open spec fn points_view(v: Seq<Point>) -> Seq<SpecPoint> {
    v.map_values(|p: Point| p@)
}

impl View for Shape {
    type V = SpecShape;

    open spec fn view(&self) -> SpecShape {
        match self {
            Shape::Line { start, end } => SpecShape::Line { start: start@, end: end@ },
            Shape::Polyline { vertices } => SpecShape::Polyline {
                vertices: points_view(vertices@),
            },
            Shape::Arc { center, radius, start_angle, end_angle } => SpecShape::Arc {
                center: center@,
                radius: *radius as int,
                start_angle: *start_angle as int,
                end_angle: *end_angle as int,
            },
            Shape::Circle { center, radius } => SpecShape::Circle {
                center: center@,
                radius: *radius as int,
            },
            Shape::Text { location, height, rotation, value } => SpecShape::Text {
                location: location@,
                height: *height as int,
                rotation: *rotation as int,
                value: value@,
            },
        }
    }
}

/// A shape together with the layer it is drawn on.
#[derive(Clone, Debug, PartialEq)]
pub struct Entity {
    pub layer: Layer,
    pub shape: Shape,
}

pub struct SpecEntity {
    pub layer: Layer,
    pub shape: SpecShape,
}

impl View for Entity {
    type V = SpecEntity;

    open spec fn view(&self) -> SpecEntity {
        SpecEntity { layer: self.layer, shape: self.shape@ }
    }
}

pub open spec fn line_model(layer: Layer, start: SpecPoint, end: SpecPoint) -> SpecEntity {
    SpecEntity { layer, shape: SpecShape::Line { start, end } }
}

pub open spec fn polyline_model(layer: Layer, vertices: Seq<SpecPoint>) -> SpecEntity {
    SpecEntity { layer, shape: SpecShape::Polyline { vertices } }
}

pub open spec fn arc_model(
    layer: Layer,
    center: SpecPoint,
    radius: int,
    start_angle: int,
    end_angle: int,
) -> SpecEntity {
    SpecEntity { layer, shape: SpecShape::Arc { center, radius, start_angle, end_angle } }
}

pub open spec fn circle_model(layer: Layer, center: SpecPoint, radius: int) -> SpecEntity {
    SpecEntity { layer, shape: SpecShape::Circle { center, radius } }
}

pub open spec fn text_model(
    layer: Layer,
    location: SpecPoint,
    height: int,
    rotation: int,
    value: Seq<char>,
) -> SpecEntity {
    SpecEntity { layer, shape: SpecShape::Text { location, height, rotation, value } }
}

/// Closed outline through four corners: back to the first after the fourth.
pub open spec fn closed_model(
    layer: Layer,
    a: SpecPoint,
    b: SpecPoint,
    c: SpecPoint,
    d: SpecPoint,
) -> SpecEntity {
    polyline_model(layer, seq![a, b, c, d, a])
}

/// Start of a line; the origin for any other shape.
pub open spec fn line_start(e: SpecEntity) -> SpecPoint {
    match e.shape {
        SpecShape::Line { start, .. } => start,
        _ => spt(0, 0),
    }
}

/// End of a line; the origin for any other shape.
pub open spec fn line_end(e: SpecEntity) -> SpecPoint {
    match e.shape {
        SpecShape::Line { end, .. } => end,
        _ => spt(0, 0),
    }
}

/// Radius of an arc or a circle; zero for any other shape.
pub open spec fn radius_of(e: SpecEntity) -> int {
    match e.shape {
        SpecShape::Arc { radius, .. } => radius,
        SpecShape::Circle { radius, .. } => radius,
        _ => 0,
    }
}

/// Start and end angle of an arc; zero for any other shape.
pub open spec fn arc_angles(e: SpecEntity) -> (int, int) {
    match e.shape {
        SpecShape::Arc { start_angle, end_angle, .. } => (start_angle, end_angle),
        _ => (0, 0),
    }
}

/// Vertices of a polyline; empty for any other shape.
pub open spec fn vertices_of(e: SpecEntity) -> Seq<SpecPoint> {
    match e.shape {
        SpecShape::Polyline { vertices } => vertices,
        _ => Seq::empty(),
    }
}

/// Builds a polyline through the given vertices, in order.
pub fn polyline_from_points(points: Vec<Point>) -> (r: Shape)
    ensures
        r@ == (SpecShape::Polyline { vertices: points_view(points@) }),
{
    Shape::Polyline { vertices: points }
}

/// The ordered, append-only collection of everything drawn.
pub struct Drawing {
    entities: Vec<Entity>,
}

impl View for Drawing {
    type V = Seq<SpecEntity>;

    closed spec fn view(&self) -> Seq<SpecEntity> {
        self.entities@.map_values(|e: Entity| e@)
    }
}

impl Drawing {
    pub fn new() -> (r: Drawing)
        ensures
            r@ == Seq::<SpecEntity>::empty(),
    {
        let r = Drawing { entities: Vec::new() };
        assert(r@ =~= Seq::<SpecEntity>::empty());
        r
    }

    pub fn len(&self) -> (r: usize)
        ensures
            r == self@.len(),
    {
        self.entities.len()
    }

    /// The entity at `i`, in drawing order.
    pub fn entity(&self, i: usize) -> (r: &Entity)
        requires
            i < self@.len(),
        ensures
            r@ == self@[i as int],
    {
        &self.entities[i]
    }

    pub fn add(&mut self, e: Entity)
        ensures
            final(self)@ == old(self)@.push(e@),
    {
        self.entities.push(e);
        assert(self@ =~= old(self)@.push(e@));
    }

    pub fn add_line(&mut self, layer: Layer, start: Point, end: Point)
        ensures
            final(self)@ == old(self)@.push(line_model(layer, start@, end@)),
    {
        self.add(Entity { layer, shape: Shape::Line { start, end } });
    }

    pub fn add_polyline(&mut self, layer: Layer, vertices: Vec<Point>)
        ensures
            final(self)@ == old(self)@.push(polyline_model(layer, points_view(vertices@))),
    {
        self.add(Entity { layer, shape: polyline_from_points(vertices) });
    }

    /// A closed outline `a b c d a`.
    pub fn add_closed(&mut self, layer: Layer, a: Point, b: Point, c: Point, d: Point)
        ensures
            final(self)@ == old(self)@.push(closed_model(layer, a@, b@, c@, d@)),
    {
        let v = vec![a, b, c, d, a];
        assert(points_view(v@) =~= seq![a@, b@, c@, d@, a@]);
        self.add_polyline(layer, v);
    }

    /// An open polyline `a b c d`.
    pub fn add_open4(&mut self, layer: Layer, a: Point, b: Point, c: Point, d: Point)
        ensures
            final(self)@ == old(self)@.push(polyline_model(layer, seq![a@, b@, c@, d@])),
    {
        let v = vec![a, b, c, d];
        assert(points_view(v@) =~= seq![a@, b@, c@, d@]);
        self.add_polyline(layer, v);
    }

    pub fn add_arc(&mut self, layer: Layer, center: Point, radius: i64, start_angle: i64, end_angle: i64)
        ensures
            final(self)@ == old(self)@.push(arc_model(layer, center@, radius as int, start_angle as int, end_angle as int)),
    {
        self.add(Entity { layer, shape: Shape::Arc { center, radius, start_angle, end_angle } });
    }

    pub fn add_circle(&mut self, layer: Layer, center: Point, radius: i64)
        ensures
            final(self)@ == old(self)@.push(circle_model(layer, center@, radius as int)),
    {
        self.add(Entity { layer, shape: Shape::Circle { center, radius } });
    }

    pub fn add_text(&mut self, layer: Layer, location: Point, height: i64, rotation: i64, value: String)
        ensures
            final(self)@ == old(self)@.push(text_model(layer, location@, height as int, rotation as int, value@)),
    {
        self.add(Entity { layer, shape: Shape::Text { location, height, rotation, value } });
    }
}

} // verus!
