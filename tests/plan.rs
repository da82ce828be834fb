use sauna_plan::dimensions::Dimensions;
use sauna_plan::geometry::{Drawing, Entity, Layer, Point, Shape};
use sauna_plan::plan::draw_floor_plan;

fn plan_of(d: &Dimensions) -> Vec<Entity> {
    let mut drawing = Drawing::new();
    draw_floor_plan(&mut drawing, d);
    (0..drawing.len()).map(|i| drawing.entity(i).clone()).collect()
}

fn line(e: &Entity) -> (Point, Point) {
    match &e.shape {
        Shape::Line { start, end } => (*start, *end),
        other => panic!("expected a line, got {:?}", other),
    }
}

fn vertices(e: &Entity) -> Vec<Point> {
    match &e.shape {
        Shape::Polyline { vertices } => vertices.clone(),
        other => panic!("expected a polyline, got {:?}", other),
    }
}

fn text_value(e: &Entity) -> String {
    match &e.shape {
        Shape::Text { value, .. } => value.clone(),
        other => panic!("expected a text, got {:?}", other),
    }
}

// Walls 11, doors 9, windows 6, deck 7, hot tub 3, fixtures 3, labels 11.
const DIMS_START: usize = 50;

#[test]
fn floor_plan_shape_count() {
    let es = plan_of(&Dimensions::standard());
    assert_eq!(es.len(), 50 + 49 + 11);
}

#[test]
fn plan_width_chain_sums_to_overall() {
    for d in [Dimensions::standard(), {
        let mut d = Dimensions::standard();
        d.sauna_width = 2500;
        d.outdoor_seating_width = 4100;
        d
    }] {
        let es = plan_of(&d);
        let dim_line = |k: usize| line(&es[DIMS_START + 6 * k + 2]);
        let (o1, o2) = dim_line(0);
        assert_eq!((o1.x, o2.x), (0, d.total_width()));
        let mut sum = 0;
        let mut at = o1.x;
        for k in 1..5 {
            let (a, b) = dim_line(k);
            assert_eq!(a.x, at);
            sum += b.x - a.x;
            at = b.x;
        }
        assert_eq!(at, o2.x);
        assert_eq!(sum, o2.x - o1.x);
    }
}

#[test]
fn plan_depth_chain_sums_to_overall() {
    let d = Dimensions::standard();
    let es = plan_of(&d);
    let dim_line = |k: usize| line(&es[DIMS_START + 6 * k + 2]);
    let (o1, o2) = dim_line(5);
    let (a1, a2) = dim_line(6);
    let (b1, b2) = dim_line(7);
    assert_eq!((o1.y, o2.y), (0, 4000));
    assert_eq!(a1.y, o1.y);
    assert_eq!(a2.y, b1.y);
    assert_eq!(b2.y, o2.y);
    assert_eq!((a2.y - a1.y) + (b2.y - b1.y), o2.y - o1.y);
}

#[test]
fn plan_dimension_texts() {
    let es = plan_of(&Dimensions::standard());
    let texts: Vec<String> = (0..8).map(|k| text_value(&es[DIMS_START + 6 * k + 5])).collect();
    assert_eq!(texts, vec!["8.61m", "2.26m", "1.20m", "1.50m", "3.65m", "4.00m", "1.00m", "3.00m"]);
    assert_eq!(text_value(&es[DIMS_START + 48]), "WALLS: 150mm");
}

#[test]
fn inner_doors_fill_partition_gaps() {
    let d = Dimensions::standard();
    let es = plan_of(&d);
    // Sauna/wash partition: segments 4 and 5; its door is the second one (shapes 14..17).
    let lower = vertices(&es[4]);
    let upper = vertices(&es[5]);
    let (s1, s2) = line(&es[11 + 5]);
    assert_eq!((s1.y, s2.y), (lower[2].y, upper[0].y));
    assert_eq!((s1.y, s2.y), (1450, 2250));
    assert_eq!(s1.x, 2110);
    assert_eq!(s2.x, 2110);
    assert_eq!(lower[0].x, 2110);
    // Wash/changing partition: segments 6 and 7; its door is the third one.
    let lower = vertices(&es[6]);
    let upper = vertices(&es[7]);
    let (s1, s2) = line(&es[11 + 8]);
    assert_eq!((s2.y, s1.y), (lower[2].y, upper[0].y));
    assert_eq!((s2.y, s1.y), (2750, 3550));
    assert_eq!(s1.x, 3460);
    assert_eq!(lower[1].x, 3460);
    for i in [11 + 4, 11 + 7] {
        match &es[i].shape {
            Shape::Arc { radius, .. } => assert_eq!(*radius, 800),
            other => panic!("expected an arc, got {:?}", other),
        }
    }
}

#[test]
fn exterior_walls_and_partitions() {
    let es = plan_of(&Dimensions::standard());
    assert_eq!(
        vertices(&es[0]),
        vec![
            Point { x: 0, y: 1000 },
            Point { x: 4960, y: 1000 },
            Point { x: 4960, y: 1150 },
            Point { x: 0, y: 1150 },
            Point { x: 0, y: 1000 },
        ]
    );
    for i in 0..4 {
        assert_eq!(es[i].layer, Layer::Walls);
    }
    for i in 4..8 {
        assert_eq!(es[i].layer, Layer::WallsInner);
    }
    assert_eq!(
        vertices(&es[8]),
        vec![
            Point { x: 4960, y: 1000 },
            Point { x: 8610, y: 1000 },
            Point { x: 8610, y: 4000 },
            Point { x: 4960, y: 4000 },
        ]
    );
}

#[test]
fn room_labels_carry_areas() {
    let es = plan_of(&Dimensions::standard());
    let start = 11 + 9 + 6 + 7 + 3 + 3;
    let texts: Vec<String> = (0..11).map(|k| text_value(&es[start + k])).collect();
    assert_eq!(
        texts,
        vec![
            "SAUNA", "5.3 m²", "WASH", "2.8 m²", "CHANGING", "3.6 m²", "DECK", "11.0 m²", "TERRACE",
            "8.6 m²", "HOT TUB\n2m dia.",
        ]
    );
}

#[test]
fn hot_tub_straddles_deck_edge() {
    let es = plan_of(&Dimensions::standard());
    let start = 11 + 9 + 6 + 7;
    assert_eq!(
        vertices(&es[start]),
        vec![
            Point { x: 6010, y: 1000 },
            Point { x: 8210, y: 1000 },
            Point { x: 8210, y: 0 },
            Point { x: 6010, y: 0 },
            Point { x: 6010, y: 1000 },
        ]
    );
    match (&es[start + 1].shape, &es[start + 2].shape) {
        (Shape::Circle { center: c1, radius: r1 }, Shape::Circle { center: c2, radius: r2 }) => {
            assert_eq!(*c1, Point { x: 7110, y: -800 });
            assert_eq!(c1, c2);
            assert_eq!(*r1, 1000);
            assert_eq!(*r2, 850);
        }
        other => panic!("expected two circles, got {:?}", other),
    }
}

#[test]
fn deck_boards_in_plan() {
    let es = plan_of(&Dimensions::standard());
    let start = 11 + 9 + 6;
    assert_eq!(es[start].layer, Layer::Deck);
    for k in 0..6 {
        let (a, b) = line(&es[start + 1 + k]);
        assert_eq!(a, Point { x: 0, y: 160 * (k as i64 + 1) });
        assert_eq!(b, Point { x: 8610, y: 160 * (k as i64 + 1) });
    }
}

#[test]
fn doors_swing_into_the_room_entered() {
    let es = plan_of(&Dimensions::standard());
    let arc = |e: &Entity| match &e.shape {
        Shape::Arc { start_angle, end_angle, .. } => (*start_angle, *end_angle),
        other => panic!("expected an arc, got {:?}", other),
    };
    // Entrance: hinge on the south wall's inner face, leaf north, swing to the east.
    assert_eq!(line(&es[11]), (Point { x: 2460, y: 1150 }, Point { x: 2460, y: 1950 }));
    assert_eq!(arc(&es[12]), (0, 90));
    assert_eq!(line(&es[13]), (Point { x: 2460, y: 1150 }, Point { x: 3260, y: 1150 }));
    // Sauna to wash room: the leaf closes eastwards, into the wash room.
    assert_eq!(line(&es[14]), (Point { x: 2110, y: 1450 }, Point { x: 2910, y: 1450 }));
    assert_eq!(arc(&es[15]), (0, 90));
    // Wash room to changing room: the leaf closes eastwards, into the changing room.
    assert_eq!(line(&es[17]), (Point { x: 3460, y: 3550 }, Point { x: 4260, y: 3550 }));
    assert!(line(&es[17]).1.x > 2260 + 1200);
    assert_eq!(arc(&es[18]), (-90, 0));
}
