use wilhelm_renderer::{
    App, Camera2D, Circle, Color, DrawCommand, FrameInput, PositionUpdate, Q, Rectangle,
    ShapeKind, ShapeRenderable, ShapeStyle, Text, Vec2,
};

fn qi(i: i64) -> Q {
    Q::from_int(i)
}

fn vi(x: i64, y: i64) -> Vec2 {
    Vec2::new(Q::from_int(x), Q::from_int(y))
}

#[test]
fn world_to_screen_centers_viewport() {
    // camera center=(0,0), scale=1, viewport=(800,600): world origin lands
    // at the viewport middle (400, 300)
    let cam = Camera2D::new(vi(0, 0), qi(1), vi(800, 600));
    let p = cam.world_to_screen(vi(0, 0));
    assert!(p.x.eq_val(&qi(400)));
    assert!(p.y.eq_val(&qi(300)));
}

#[test]
fn zoom_at_viewport_center_keeps_center() {
    let mut cam = Camera2D::new(vi(0, 0), qi(1), vi(800, 600));
    cam.zoom_at(qi(2), vi(400, 300));
    assert!(cam.scale().eq_val(&qi(2)));
    assert!(cam.center().x.eq_val(&qi(0)));
    assert!(cam.center().y.eq_val(&qi(0)));
}

#[test]
fn transform_round_trip_is_exact() {
    // fractional scale 5/2, off-center camera
    let cam = Camera2D::new(vi(3, 4), Q::new(5, 2), vi(800, 600));
    let w = vi(37, -21);
    let s = cam.world_to_screen(w);
    let back = cam.screen_to_world(s);
    assert!(back.x.eq_val(&w.x));
    assert!(back.y.eq_val(&w.y));
}

#[test]
fn zoom_fixed_point_holds() {
    // the world point under (123, 456) stays under (123, 456) after zooming
    let mut cam = Camera2D::new(vi(0, 0), qi(1), vi(800, 600));
    let p = vi(123, 456);
    let world_before = cam.screen_to_world(p);
    cam.zoom_at(qi(2), p);
    let after = cam.world_to_screen(world_before);
    assert!(after.x.eq_val(&p.x));
    assert!(after.y.eq_val(&p.y));
}

#[test]
fn zoom_by_fraction_scales_scale() {
    let mut cam = Camera2D::new(vi(0, 0), qi(10), vi(800, 600));
    cam.zoom_at(Q::new(11, 10), vi(200, 100));
    assert!(cam.scale().eq_val(&qi(11)));
}

#[test]
fn set_scale_applies_callers_clamp() {
    let mut cam = Camera2D::new(vi(0, 0), qi(1), vi(800, 600));
    cam.zoom_at(qi(100), vi(400, 300));
    // caller policy: clamp the scale back down to 50
    cam.set_scale(qi(50));
    assert!(cam.scale().eq_val(&qi(50)));
}

#[test]
fn vec2_arithmetic_is_exact() {
    let a = Vec2::new(Q::new(1, 2), qi(3));
    let b = Vec2::new(Q::new(1, 3), qi(4));
    let s = a.plus(&b);
    assert!(s.x.eq_val(&Q::new(5, 6)));
    assert!(s.y.eq_val(&qi(7)));
    let d = a.minus(&b);
    assert!(d.x.eq_val(&Q::new(1, 6)));
    let k = a.scaled(&qi(4));
    assert!(k.x.eq_val(&qi(2)));
    assert!(k.y.eq_val(&qi(12)));
}

#[test]
fn color_constructors() {
    let w = Color::white();
    assert!(w.r.eq_val(&qi(1)));
    assert!(w.a.eq_val(&qi(1)));
    let c = Color::from_rgb(Q::new(1, 10), Q::new(2, 10), Q::new(3, 10));
    assert!(c.g.eq_val(&Q::new(1, 5)));
    assert!(c.a.eq_val(&qi(1)));
}

#[test]
fn text_keeps_content_and_font() {
    let t = Text::new("Hello, World!", "fonts/DejaVuSans.ttf", 48);
    assert_eq!(t.content, "Hello, World!");
    assert_eq!(t.font, "fonts/DejaVuSans.ttf");
    assert_eq!(t.size, 48);
}

#[test]
fn set_position_moves_only_position() {
    let mut s = ShapeRenderable::from_shape(
        qi(0),
        qi(0),
        ShapeKind::Circle(Circle::new(qi(30))),
        ShapeStyle::fill(Color::white()),
    );
    s.set_position(qi(7), qi(9));
    assert!(s.position.x.eq_val(&qi(7)));
    assert!(s.position.y.eq_val(&qi(9)));
    assert!(matches!(s.kind, ShapeKind::Circle(_)));
}

#[test]
fn render_order_follows_sequence_order() {
    // scene [A, B]: B's draw call comes strictly after A's in the frame
    let mut app = App::new();
    app.add_shape(ShapeRenderable::from_shape(
        qi(10),
        qi(10),
        ShapeKind::Circle(Circle::new(qi(30))),
        ShapeStyle::fill(Color::white()),
    ));
    app.add_shape(ShapeRenderable::from_shape(
        qi(12),
        qi(12),
        ShapeKind::Rectangle(Rectangle::new(qi(80), qi(50))),
        ShapeStyle::fill(Color::white()),
    ));
    app.on_render(vec![FrameInput { moves: Vec::new() }]);
    let frames = app.run();
    assert_eq!(frames.len(), 1);
    assert_eq!(frames[0].len(), 2);
    assert!(matches!(frames[0][0], DrawCommand::Circle { .. }));
    assert!(matches!(frames[0][1], DrawCommand::Rectangle { .. }));
}

#[test]
fn frame_reflects_same_frame_updates() {
    // a position update in a frame is visible in that frame's draw call
    let mut app = App::new();
    app.add_shape(ShapeRenderable::from_shape(
        qi(0),
        qi(0),
        ShapeKind::Circle(Circle::new(qi(5))),
        ShapeStyle::fill(Color::white()),
    ));
    app.on_render(vec![FrameInput {
        moves: vec![PositionUpdate { index: 0, x: qi(50), y: qi(60) }],
    }]);
    let frames = app.run();
    assert_eq!(frames.len(), 1);
    match &frames[0][0] {
        DrawCommand::Circle { position, .. } => {
            assert!(position.x.eq_val(&qi(50)));
            assert!(position.y.eq_val(&qi(60)));
        }
        _ => panic!("expected a circle draw call"),
    }
}

#[test]
fn updates_accumulate_across_frames() {
    let mut app = App::new();
    app.add_shape(ShapeRenderable::from_shape(
        qi(0),
        qi(0),
        ShapeKind::Circle(Circle::new(qi(5))),
        ShapeStyle::fill(Color::white()),
    ));
    app.on_render(vec![
        FrameInput { moves: vec![PositionUpdate { index: 0, x: qi(1), y: qi(2) }] },
        FrameInput { moves: Vec::new() },
    ]);
    let frames = app.run();
    assert_eq!(frames.len(), 2);
    // the second frame still sees the first frame's update
    match &frames[1][0] {
        DrawCommand::Circle { position, .. } => {
            assert!(position.x.eq_val(&qi(1)));
            assert!(position.y.eq_val(&qi(2)));
        }
        _ => panic!("expected a circle draw call"),
    }
}

#[test]
fn out_of_range_update_does_nothing() {
    let mut app = App::new();
    app.add_shape(ShapeRenderable::from_shape(
        qi(3),
        qi(4),
        ShapeKind::Circle(Circle::new(qi(5))),
        ShapeStyle::fill(Color::white()),
    ));
    app.on_render(vec![FrameInput {
        moves: vec![PositionUpdate { index: 7, x: qi(9), y: qi(9) }],
    }]);
    let frames = app.run();
    match &frames[0][0] {
        DrawCommand::Circle { position, .. } => {
            assert!(position.x.eq_val(&qi(3)));
            assert!(position.y.eq_val(&qi(4)));
        }
        _ => panic!("expected a circle draw call"),
    }
}

#[test]
fn callback_style_mutation_via_shapes_mut() {
    // the camera-driven pattern: project a world point, then write the
    // screen position into the shape before rendering the frame
    let mut app = App::new();
    app.add_shape(ShapeRenderable::from_shape(
        qi(0),
        qi(0),
        ShapeKind::Circle(Circle::new(qi(30))),
        ShapeStyle::fill(Color::white()),
    ));
    let cam = Camera2D::new(vi(0, 0), qi(1), vi(800, 600));
    let screen = cam.world_to_screen(vi(100, 0));
    app.shapes_mut()[0].set_position(screen.x, screen.y);
    let frame = app.frame_commands();
    match &frame[0] {
        DrawCommand::Circle { position, .. } => {
            assert!(position.x.eq_val(&qi(500)));
            assert!(position.y.eq_val(&qi(300)));
        }
        _ => panic!("expected a circle draw call"),
    }
}
