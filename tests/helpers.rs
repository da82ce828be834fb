use sauna_plan::geometry::{Drawing, Entity, Layer, Point, Shape};
use sauna_plan::helpers::{
    draw_deck_pattern, draw_dim_horizontal, draw_dim_vertical, draw_door, draw_north_arrow,
    draw_room_label, draw_title_block, draw_window,
};

fn entities(d: &Drawing) -> Vec<Entity> {
    (0..d.len()).map(|i| d.entity(i).clone()).collect()
}

fn line(e: &Entity) -> (Point, Point) {
    match &e.shape {
        Shape::Line { start, end } => (*start, *end),
        other => panic!("expected a line, got {:?}", other),
    }
}

fn text(e: &Entity) -> (Point, i64, i64, String) {
    match &e.shape {
        Shape::Text { location, height, rotation, value } => (*location, *height, *rotation, value.clone()),
        other => panic!("expected a text, got {:?}", other),
    }
}

fn pt(x: i64, y: i64) -> Point {
    Point { x, y }
}

#[test]
fn deck_pattern_lines_stop_before_edge() {
    let mut d = Drawing::new();
    draw_deck_pattern(&mut d, 0, 0, 8610, 1000);
    let es = entities(&d);
    let ys: Vec<i64> = es.iter().map(|e| line(e).0.y).collect();
    assert_eq!(ys, vec![160, 320, 480, 640, 800, 960]);
    for e in &es {
        assert_eq!(e.layer, Layer::DeckPattern);
        let (a, b) = line(e);
        assert_eq!(a.x, 0);
        assert_eq!(b.x, 8610);
        assert_eq!(a.y, b.y);
        assert!(a.y < 1000);
    }
}

#[test]
fn deck_pattern_empty_when_too_shallow() {
    let mut d = Drawing::new();
    draw_deck_pattern(&mut d, 0, 0, 1000, 160);
    assert_eq!(d.len(), 0);
    draw_deck_pattern(&mut d, 0, 500, 1000, 200);
    assert_eq!(d.len(), 0);
    draw_deck_pattern(&mut d, 0, 0, 1000, 161);
    assert_eq!(d.len(), 1);
}

#[test]
fn horizontal_dimension_text_and_lines() {
    let mut d = Drawing::new();
    draw_dim_horizontal(&mut d, 0, 2260, 1000, 300, "");
    let es = entities(&d);
    assert_eq!(es.len(), 6);
    assert!(es.iter().all(|e| e.layer == Layer::Dimensions));
    assert_eq!(line(&es[0]), (pt(0, 1000), pt(0, 1350)));
    assert_eq!(line(&es[1]), (pt(2260, 1000), pt(2260, 1350)));
    assert_eq!(line(&es[2]), (pt(0, 1300), pt(2260, 1300)));
    assert_eq!(line(&es[3]), (pt(-50, 1250), pt(50, 1350)));
    assert_eq!(line(&es[4]), (pt(2210, 1250), pt(2310, 1350)));
    let (at, height, rotation, value) = text(&es[5]);
    assert_eq!(value, "2.26m");
    assert_eq!(at, pt(1130, 1350));
    assert_eq!(height, 100);
    assert_eq!(rotation, 0);
}

#[test]
fn horizontal_dimension_with_prefix_and_reversed_ends() {
    let mut d = Drawing::new();
    draw_dim_horizontal(&mut d, 2000, 500, 0, -300, "W ");
    let es = entities(&d);
    let (at, _, _, value) = text(&es[5]);
    assert_eq!(value, "W 1.50m");
    assert_eq!(at, pt(1250, -250));
}

#[test]
fn vertical_dimension_text_is_turned() {
    let mut d = Drawing::new();
    draw_dim_vertical(&mut d, 0, 0, 4000, -600, "");
    let es = entities(&d);
    assert_eq!(es.len(), 6);
    assert_eq!(line(&es[0]), (pt(0, 0), pt(-550, 0)));
    assert_eq!(line(&es[2]), (pt(-600, 0), pt(-600, 4000)));
    assert_eq!(line(&es[4]), (pt(-650, 3950), pt(-550, 4050)));
    let (at, _, rotation, value) = text(&es[5]);
    assert_eq!(value, "4.00m");
    assert_eq!(at, pt(-550, 2000));
    assert_eq!(rotation, 90);
}

#[test]
fn door_counter_clockwise_arc_angles() {
    let mut d = Drawing::new();
    draw_door(&mut d, 0, 0, 800, 90, false);
    let es = entities(&d);
    assert_eq!(es.len(), 3);
    assert_eq!(line(&es[0]), (pt(0, 0), pt(0, 800)));
    match &es[1].shape {
        Shape::Arc { center, radius, start_angle, end_angle } => {
            assert_eq!(*center, pt(0, 0));
            assert_eq!(*radius, 800);
            assert_eq!(*start_angle, 90);
            assert_eq!(*end_angle, 180);
        }
        other => panic!("expected an arc, got {:?}", other),
    }
    assert_eq!(line(&es[2]), (pt(0, 0), pt(-800, 0)));
}

#[test]
fn door_clockwise_arc_is_normalised() {
    let mut d = Drawing::new();
    draw_door(&mut d, 100, 200, 800, 0, true);
    let es = entities(&d);
    assert_eq!(line(&es[0]), (pt(100, 200), pt(900, 200)));
    match &es[1].shape {
        Shape::Arc { start_angle, end_angle, .. } => {
            assert_eq!((*start_angle, *end_angle), (-90, 0));
        }
        other => panic!("expected an arc, got {:?}", other),
    }
    assert_eq!(line(&es[2]), (pt(100, 200), pt(100, -600)));
}

#[test]
fn door_pointing_south_and_west() {
    let mut d = Drawing::new();
    draw_door(&mut d, 0, 0, 500, 270, false);
    draw_door(&mut d, 0, 0, 500, 180, true);
    let es = entities(&d);
    assert_eq!(line(&es[0]), (pt(0, 0), pt(0, -500)));
    assert_eq!(line(&es[2]), (pt(0, 0), pt(500, 0)));
    assert_eq!(line(&es[3]), (pt(0, 0), pt(-500, 0)));
    assert_eq!(line(&es[5]), (pt(0, 0), pt(0, 500)));
}

#[test]
fn window_frames_and_glass() {
    let mut d = Drawing::new();
    draw_window(&mut d, 830, 3850, 600, 150, true);
    draw_window(&mut d, 0, 2200, 600, 150, false);
    let es = entities(&d);
    assert_eq!(es.len(), 4);
    match &es[0].shape {
        Shape::Polyline { vertices } => assert_eq!(
            vertices,
            &vec![pt(830, 3850), pt(1430, 3850), pt(1430, 4000), pt(830, 4000), pt(830, 3850)]
        ),
        other => panic!("expected a polyline, got {:?}", other),
    }
    assert_eq!(line(&es[1]), (pt(830, 3925), pt(1430, 3925)));
    match &es[2].shape {
        Shape::Polyline { vertices } => assert_eq!(
            vertices,
            &vec![pt(0, 2200), pt(150, 2200), pt(150, 2800), pt(0, 2800), pt(0, 2200)]
        ),
        other => panic!("expected a polyline, got {:?}", other),
    }
    assert_eq!(line(&es[3]), (pt(75, 2200), pt(75, 2800)));
    assert!(es.iter().all(|e| e.layer == Layer::Windows));
}

#[test]
fn room_label_name_above_area_below() {
    let mut d = Drawing::new();
    draw_room_label(&mut d, 1130, 2500, "SAUNA", 5_292_000);
    let es = entities(&d);
    assert_eq!(text(&es[0]), (pt(1130, 2590), 150, 0, "SAUNA".to_string()));
    assert_eq!(text(&es[1]), (pt(1130, 2410), 100, 0, "5.3 m²".to_string()));
}

#[test]
fn north_arrow_shape() {
    let mut d = Drawing::new();
    draw_north_arrow(&mut d, -1000, 4500, 500);
    let es = entities(&d);
    assert_eq!(line(&es[0]), (pt(-1000, 4500), pt(-1000, 5000)));
    match &es[1].shape {
        Shape::Polyline { vertices } => assert_eq!(
            vertices,
            &vec![pt(-1000, 5000), pt(-1100, 4850), pt(-1000, 4900), pt(-900, 4850), pt(-1000, 5000)]
        ),
        other => panic!("expected a polyline, got {:?}", other),
    }
    assert_eq!(text(&es[2]), (pt(-1050, 5100), 150, 0, "N".to_string()));
}

#[test]
fn title_block_fields() {
    let mut d = Drawing::new();
    draw_title_block(&mut d, 4610, -3000, 4000, 1500);
    let es = entities(&d);
    assert_eq!(es.len(), 7);
    assert_eq!(line(&es[1]), (pt(4610, -2250), pt(8610, -2250)));
    assert_eq!(line(&es[2]), (pt(4610, -2625), pt(8610, -2625)));
    assert_eq!(text(&es[3]), (pt(4810, -1950), 250, 0, "SAUNA BUILDING".to_string()));
    assert_eq!(text(&es[4]), (pt(4810, -2475), 150, 0, "FLOOR PLAN & ELEVATIONS".to_string()));
    assert_eq!(text(&es[5]), (pt(4810, -2850), 100, 0, "SCALE: 1:50".to_string()));
    assert_eq!(text(&es[6]), (pt(6610, -2850), 100, 0, "DATE: 2026-01-03".to_string()));
    assert!(es.iter().all(|e| e.layer == Layer::TitleBlock));
}
