use sauna_plan::dimensions::Dimensions;
use sauna_plan::geometry::{Drawing, Entity, Layer, Point, Shape};
use sauna_plan::layers::all_layers;
use sauna_plan::sheet::generate_drawing;
use sauna_plan::views::{create_front_elevation, create_section_cut, create_side_elevation, create_top_view};

fn collect(drawing: &Drawing) -> Vec<Entity> {
    (0..drawing.len()).map(|i| drawing.entity(i).clone()).collect()
}

fn vertices(e: &Entity) -> Vec<Point> {
    match &e.shape {
        Shape::Polyline { vertices } => vertices.clone(),
        other => panic!("expected a polyline, got {:?}", other),
    }
}

fn text_value(e: &Entity) -> String {
    match &e.shape {
        Shape::Text { value, .. } => value.clone(),
        other => panic!("expected a text, got {:?}", other),
    }
}

#[test]
fn front_elevation_roof_and_title() {
    let d = Dimensions::standard();
    let mut drawing = Drawing::new();
    create_front_elevation(&mut drawing, &d, 10_000, 0);
    let es = collect(&drawing);
    assert_eq!(es.len(), 8 + 18 + 1);
    // Roof: overhang on both ends, on top of deck and walls.
    assert_eq!(es[5].layer, Layer::Roof);
    assert_eq!(
        vertices(&es[5]),
        vec![
            Point { x: 9700, y: 2900 },
            Point { x: 9700, y: 3100 },
            Point { x: 18910, y: 3100 },
            Point { x: 18910, y: 2900 },
            Point { x: 9700, y: 2900 },
        ]
    );
    // Door at the same offset as in the plan.
    assert_eq!(vertices(&es[6])[0], Point { x: 12460, y: 400 });
    assert_eq!(text_value(&es[8 + 5]), "8.61m");
    assert_eq!(text_value(&es[8 + 11]), "0.40m");
    assert_eq!(text_value(&es[8 + 17]), "2.50m");
    assert_eq!(text_value(&es[26]), "FRONT ELEVATION");
}

#[test]
fn top_view_outlines() {
    let d = Dimensions::standard();
    let mut drawing = Drawing::new();
    create_top_view(&mut drawing, &d, 0, 0);
    let es = collect(&drawing);
    assert_eq!(es.len(), 4 + 12 + 1);
    assert_eq!(vertices(&es[0])[2], Point { x: 8910, y: 3300 });
    assert_eq!(vertices(&es[2])[2], Point { x: 4960, y: 3000 });
    match &es[3].shape {
        Shape::Circle { center, radius } => {
            assert_eq!(*center, Point { x: 500, y: 1500 });
            assert_eq!(*radius, 150);
        }
        other => panic!("expected a circle, got {:?}", other),
    }
    assert_eq!(text_value(&es[4 + 5]), "9.21m");
    assert_eq!(text_value(&es[4 + 11]), "3.60m");
    assert_eq!(text_value(&es[16]), "ROOF PLAN");
}

#[test]
fn side_elevation_heights() {
    let d = Dimensions::standard();
    let mut drawing = Drawing::new();
    create_side_elevation(&mut drawing, &d, 0, 0);
    let es = collect(&drawing);
    assert_eq!(es.len(), 5 + 12 + 1);
    assert_eq!(vertices(&es[1])[0], Point { x: -1000, y: 0 });
    assert_eq!(vertices(&es[4])[0], Point { x: 2800, y: 1400 });
    assert_eq!(text_value(&es[5 + 5]), "3.00m");
    assert_eq!(text_value(&es[5 + 11]), "3.10m");
    assert_eq!(text_value(&es[17]), "SIDE ELEVATION");
}

#[test]
fn section_bench_heights() {
    let d = Dimensions::standard();
    let mut drawing = Drawing::new();
    create_section_cut(&mut drawing, &d, 0, 0);
    let es = collect(&drawing);
    assert_eq!(es.len(), 9 + 24 + 1);
    assert_eq!(vertices(&es[4])[0], Point { x: 250, y: 850 });
    assert_eq!(vertices(&es[5])[0], Point { x: 250, y: 1300 });
    assert_eq!(vertices(&es[5])[2], Point { x: 850, y: 1350 });
    assert_eq!(text_value(&es[9 + 5]), "2.26m");
    assert_eq!(text_value(&es[9 + 11]), "0.45m");
    assert_eq!(text_value(&es[9 + 17]), "0.90m");
    assert_eq!(text_value(&es[9 + 23]), "2.50m");
    assert_eq!(text_value(&es[33]), "SECTION A-A");
}

#[test]
fn generation_is_repeatable() {
    let d = Dimensions::standard();
    let a = collect(&generate_drawing(&d));
    let b = collect(&generate_drawing(&d));
    assert_eq!(a.len(), 110 + 27 + 17 + 18 + 34);
    assert_eq!(a, b);
}

#[test]
fn every_shape_is_on_a_declared_layer() {
    let layers = all_layers();
    assert_eq!(layers.len(), 15);
    let d = Dimensions::standard();
    for e in collect(&generate_drawing(&d)) {
        assert!(layers.contains(&e.layer));
    }
}

#[test]
fn layer_names_and_colours() {
    assert_eq!(Layer::Walls.name(), "A-WALL");
    assert_eq!(Layer::Walls.color_index(), 7);
    assert_eq!(Layer::HotTub.name(), "A-PLMB-FIXT");
    assert_eq!(Layer::Deck.color_index(), 30);
    assert_eq!(Layer::Roof.name(), "A-ROOF");
    assert_eq!(Layer::Roof.color_index(), 1);
    let names: Vec<&str> = all_layers().iter().map(|l| l.name()).collect();
    assert_eq!(names[0], "A-WALL");
    assert_eq!(names[14], "A-ROOF");
}

#[test]
fn degenerate_dimensions_still_draw() {
    let mut d = Dimensions::standard();
    d.sauna_width = 0;
    d.door_width = 0;
    d.deck_depth = 0;
    d.wall_thickness = -50;
    assert!(d.within_limits());
    let es = collect(&generate_drawing(&d));
    // No deck boards fit in a zero-depth terrace; everything else is still drawn.
    assert_eq!(es.len(), 110 - 6 + 27 + 17 + 18 + 34);
}

#[test]
fn views_agree_on_height_and_entrance() {
    let d = Dimensions::standard();
    let mut drawing = Drawing::new();
    create_front_elevation(&mut drawing, &d, 0, 0);
    create_side_elevation(&mut drawing, &d, 0, 0);
    create_section_cut(&mut drawing, &d, 0, 0);
    let es = collect(&drawing);
    let span = |e: &Entity| match &e.shape {
        Shape::Line { start, end } => end.y - start.y,
        other => panic!("expected a line, got {:?}", other),
    };
    // Front: 8 shapes then three dimensions; the third is the room height.
    assert_eq!(span(&es[8 + 12 + 2]), 2500);
    // Section: after front (27) and side (18), 9 shapes then four dimensions.
    assert_eq!(span(&es[45 + 9 + 18 + 2]), 2500);
    let side_wall = vertices(&es[27 + 2]);
    assert_eq!(side_wall[1].y - side_wall[0].y, 2500);
    assert_eq!(vertices(&es[6])[0].x, 2260 + 200);
}
