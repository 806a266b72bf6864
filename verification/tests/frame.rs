use paddleball::frame::{quit_requested, Event, FrameState, Key};
use paddleball::raster::{draw_box, draw_circle, draw_horizontal_line, draw_vertical_line};
use paddleball::scene::{render, to_pixel, Layer, PIXEL_REACH};
use paddleball::surface::{Color, Surface};
use paddleball::world::{Controls, Vec2, World, DRAW_LIMIT, DT_LIMIT};

const NONE: Controls = Controls { left: false, right: false };
const RIGHT: Controls = Controls { left: false, right: true };

fn expected_scene(world: &World) -> Surface {
    let mut surface = Surface::new(Color { r: 24, g: 24, b: 24 });
    let w = world.playfield.width;
    let h = world.playfield.height;
    surface.set_draw_color(Color { r: 0, g: 200, b: 0 });
    draw_horizontal_line(&mut surface, 10, w - 10, 10);
    draw_horizontal_line(&mut surface, 10, w - 10, h - 10);
    draw_vertical_line(&mut surface, 10, 10, h - 10);
    draw_vertical_line(&mut surface, w - 10, 10, h - 10);
    surface.set_draw_color(Color { r: 255, g: 64, b: 1 });
    let bx = (world.ball.position.x as f64 / 100.0) as i32;
    let by = (world.ball.position.y as f64 / 100.0) as i32;
    draw_circle(&mut surface, (bx, by), 20);
    surface.set_draw_color(Color { r: 1, g: 64, b: 255 });
    let x0 = ((world.paddle.center_x - world.paddle.half_width) as f64 / 100.0) as i32;
    let x1 = ((world.paddle.center_x + world.paddle.half_width) as f64 / 100.0) as i32;
    let y0 = ((world.paddle.center_y - world.paddle.half_height) as f64 / 100.0) as i32;
    let y1 = ((world.paddle.center_y + world.paddle.half_height) as f64 / 100.0) as i32;
    draw_box(&mut surface, (x0, y0), (x1, y1));
    surface
}

#[test]
fn each_layer_has_its_color() {
    assert_eq!(Layer::Backdrop.color(), Color { r: 24, g: 24, b: 24 });
    assert_eq!(Layer::Walls.color(), Color { r: 0, g: 200, b: 0 });
    assert_eq!(Layer::Ball.color(), Color { r: 255, g: 64, b: 1 });
    assert_eq!(Layer::Paddle.color(), Color { r: 1, g: 64, b: 255 });
}

#[test]
fn to_pixel_rounds_toward_zero() {
    assert_eq!(to_pixel(0), 0);
    assert_eq!(to_pixel(99), 0);
    assert_eq!(to_pixel(100), 1);
    assert_eq!(to_pixel(199), 1);
    assert_eq!(to_pixel(39900), 399);
    assert_eq!(to_pixel(39999), 399);
    assert_eq!(to_pixel(-1), 0);
    assert_eq!(to_pixel(-99), 0);
    assert_eq!(to_pixel(-100), -1);
    assert_eq!(to_pixel(-150), -1);
    assert_eq!(to_pixel(-199), -1);
    assert_eq!(to_pixel(-200), -2);
}

#[test]
fn to_pixel_is_held_to_the_pixel_range() {
    assert_eq!(to_pixel(214_748_364_700), i32::MAX);
    assert_eq!(to_pixel(214_748_364_699), i32::MAX - 1);
    assert_eq!(to_pixel(214_748_364_800), i32::MAX);
    assert_eq!(to_pixel(i64::MAX), i32::MAX);
    assert_eq!(to_pixel(-214_748_364_800), i32::MIN);
    assert_eq!(to_pixel(-214_748_364_799), i32::MIN + 1);
    assert_eq!(to_pixel(-214_748_364_900), i32::MIN);
    assert_eq!(to_pixel(i64::MIN), i32::MIN);
}

#[test]
fn render_draws_walls_ball_and_paddle_in_order() {
    let world = World::new();
    let mut surface = Surface::new(Color { r: 0, g: 255, b: 255 });
    surface.draw_point(1, 2);
    render(&mut surface, &world);
    assert_eq!(surface, expected_scene(&world));
    assert_eq!(surface.background, Color { r: 24, g: 24, b: 24 });
    assert_eq!(surface.color, Color { r: 1, g: 64, b: 255 });

    let walls = 4 * 780;
    let paddle = 90 * 20;
    let ball = surface.plots.len() - walls - paddle;
    assert_eq!(surface.plots[0].x, 10);
    assert_eq!(surface.plots[0].y, 10);
    assert_eq!(surface.plots[779].x, 789);
    assert_eq!(surface.plots[780].y, 790);
    assert_eq!(surface.plots[2 * 780].x, 10);
    assert_eq!(surface.plots[3 * 780].x, 790);
    assert_eq!(surface.plots[walls - 1].y, 789);
    for plot in &surface.plots[..walls] {
        assert_eq!(plot.color, Color { r: 0, g: 200, b: 0 });
    }
    for plot in &surface.plots[walls..walls + ball] {
        assert_eq!(plot.color, Color { r: 255, g: 64, b: 1 });
        assert!((plot.x - 399).abs() <= 20 && (plot.y - 399).abs() <= 20);
    }
    for plot in &surface.plots[walls + ball..] {
        assert_eq!(plot.color, Color { r: 1, g: 64, b: 255 });
        assert!(354 <= plot.x && plot.x < 444 && 739 <= plot.y && plot.y < 759);
    }
}

#[test]
fn render_twice_gives_the_same_picture() {
    let mut world = World::new();
    world.step(NONE, NONE, 16);
    let mut surface = Surface::new(Color { r: 0, g: 0, b: 0 });
    render(&mut surface, &world);
    let first = surface.clone();
    render(&mut surface, &world);
    assert_eq!(surface, first);
    let mut other = Surface::new(Color { r: 200, g: 100, b: 50 });
    other.draw_point(5, 5);
    render(&mut other, &world);
    assert_eq!(other, first);
}

#[test]
fn render_rounds_coordinates_toward_zero() {
    let mut world = World::new();
    world.ball.position = Vec2 { x: 39999, y: 40001 };
    world.paddle.center_x = -150;
    let mut surface = Surface::new(Color { r: 0, g: 0, b: 0 });
    render(&mut surface, &world);
    assert_eq!(surface, expected_scene(&world));
    let last = surface.plots[surface.plots.len() - 1];
    // The paddle spans -46.5 .. 43.5, that is pixels -46 .. 42.
    assert_eq!(last.x, 42);
    assert_eq!(surface.plots[surface.plots.len() - 89].x, -46);
}

#[test]
fn render_at_the_edge_of_the_range_stays_in_reach() {
    assert_eq!(PIXEL_REACH, i32::MAX / 2);
    let mut world = World::new();
    world.ball.position = Vec2 { x: DRAW_LIMIT, y: -DRAW_LIMIT };
    world.paddle.center_x = -DRAW_LIMIT;
    world.paddle.center_y = DRAW_LIMIT;
    assert!(world.is_bounded());
    let mut surface = Surface::new(Color { r: 0, g: 0, b: 0 });
    render(&mut surface, &world);
    assert_eq!(surface, expected_scene(&world));
    let mut far_right = 0;
    let mut far_left = 0;
    for plot in &surface.plots {
        assert!(-PIXEL_REACH <= plot.x && plot.x <= PIXEL_REACH);
        assert!(-PIXEL_REACH <= plot.y && plot.y <= PIXEL_REACH);
        far_right = far_right.max(plot.x);
        far_left = far_left.min(plot.x);
    }
    assert_eq!(far_right, 1_000_000_000 + 19);
    assert_eq!(far_left, -1_000_000_000 - 45);
}

#[test]
fn render_follows_the_playfield() {
    let mut world = World::new();
    world.playfield.width = 800;
    world.playfield.height = 600;
    world.paddle.center_y = 54900;
    let mut surface = Surface::new(Color { r: 0, g: 0, b: 0 });
    render(&mut surface, &world);
    assert_eq!(surface, expected_scene(&world));
    assert_eq!(surface.plots[780].y, 590);
}

#[test]
fn quit_and_escape_ask_to_quit() {
    assert!(Event::Quit.requests_quit());
    assert!(Event::KeyDown { key: Key::Escape }.requests_quit());
}

#[test]
fn other_events_do_not_ask_to_quit() {
    assert!(!Event::Other.requests_quit());
    assert!(!Event::KeyUp { key: Key::Escape }.requests_quit());
    for key in [Key::Left, Key::Right, Key::Other] {
        assert!(!Event::KeyDown { key }.requests_quit());
        assert!(!Event::KeyUp { key }.requests_quit());
    }
}

#[test]
fn quit_is_found_anywhere_among_the_events() {
    assert!(!quit_requested(&vec![]));
    assert!(!quit_requested(&vec![Event::Other, Event::KeyDown { key: Key::Left }]));
    assert!(quit_requested(&vec![Event::Quit]));
    assert!(quit_requested(&vec![Event::Other, Event::Other, Event::Quit]));
    assert!(quit_requested(&vec![Event::KeyDown { key: Key::Escape }, Event::Other]));
    assert!(quit_requested(&vec![
        Event::KeyUp { key: Key::Escape },
        Event::KeyDown { key: Key::Escape },
    ]));
}

#[test]
fn new_frame_state_is_running_with_nothing_held() {
    let frame = FrameState::new(1234, World::new());
    assert!(frame.running);
    assert_eq!(frame.ticks, 1234);
    assert_eq!(frame.keys, NONE);
    assert_eq!(frame.keys_before, NONE);
    assert_eq!(frame.world, World::new());
    assert!(frame.is_ready_at(1234));
}

#[test]
fn readiness_follows_the_clock_and_the_world() {
    let mut frame = FrameState::new(1000, World::new());
    assert!(frame.is_ready_at(1000));
    assert!(frame.is_ready_at(1000 + DT_LIMIT));
    assert!(!frame.is_ready_at(1000 + DT_LIMIT + 1));
    assert!(!frame.is_ready_at(999));
    frame.world.ball.position.x = i64::MAX;
    assert!(!frame.is_ready_at(1000));
    frame.running = false;
    assert!(frame.is_ready_at(1000));
    assert!(frame.is_ready_at(0));
    let late = FrameState::new(u64::MAX - 5, World::new());
    assert!(late.is_ready_at(u64::MAX));
}

#[test]
fn advance_steps_by_the_elapsed_time_and_renders() {
    let mut frame = FrameState::new(1000, World::new());
    let mut surface = Surface::new(Color { r: 0, g: 255, b: 255 });
    frame.advance(1016, &vec![Event::Other], NONE, &mut surface);
    let mut world = World::new();
    world.step(NONE, NONE, 16);
    assert!(frame.running);
    assert_eq!(frame.ticks, 1016);
    assert_eq!(frame.world, world);
    assert_eq!(frame.world.ball.position.y, 39900 + 800);
    assert_eq!(surface, expected_scene(&world));
}

#[test]
fn first_frame_taken_at_once_moves_nothing() {
    let mut frame = FrameState::new(77, World::new());
    let mut surface = Surface::new(Color { r: 0, g: 255, b: 255 });
    frame.advance(77, &vec![], RIGHT, &mut surface);
    assert_eq!(frame.world, World::new());
    assert_eq!(surface, expected_scene(&World::new()));
}

#[test]
fn advance_needs_two_held_frames_to_move_the_paddle() {
    let mut frame = FrameState::new(0, World::new());
    let mut surface = Surface::new(Color { r: 0, g: 0, b: 0 });
    frame.advance(10, &vec![], RIGHT, &mut surface);
    assert_eq!(frame.keys, RIGHT);
    assert_eq!(frame.keys_before, NONE);
    assert_eq!(frame.world.paddle.center_x, 39900);
    frame.advance(20, &vec![], RIGHT, &mut surface);
    assert_eq!(frame.keys, RIGHT);
    assert_eq!(frame.keys_before, RIGHT);
    assert_eq!(frame.world.paddle.center_x, 39900 + 1000);
    frame.advance(30, &vec![], NONE, &mut surface);
    assert_eq!(frame.keys, NONE);
    assert_eq!(frame.keys_before, RIGHT);
    assert_eq!(frame.world.paddle.center_x, 39900 + 1000);
    frame.advance(40, &vec![], RIGHT, &mut surface);
    assert_eq!(frame.world.paddle.center_x, 39900 + 1000);
    frame.advance(50, &vec![], RIGHT, &mut surface);
    assert_eq!(frame.world.paddle.center_x, 39900 + 2000);
}

#[test]
fn advance_stops_on_quit_but_finishes_the_frame() {
    let mut frame = FrameState::new(0, World::new());
    let mut surface = Surface::new(Color { r: 0, g: 0, b: 0 });
    frame.advance(16, &vec![Event::Other, Event::Quit], NONE, &mut surface);
    assert!(!frame.running);
    assert_eq!(frame.ticks, 16);
    let mut world = World::new();
    world.step(NONE, NONE, 16);
    assert_eq!(frame.world, world);
    assert_eq!(surface, expected_scene(&world));
}

#[test]
fn advance_stops_on_escape() {
    let mut frame = FrameState::new(0, World::new());
    let mut surface = Surface::new(Color { r: 0, g: 0, b: 0 });
    frame.advance(16, &vec![Event::KeyDown { key: Key::Escape }], NONE, &mut surface);
    assert!(!frame.running);
    let mut frame = FrameState::new(0, World::new());
    frame.advance(16, &vec![Event::KeyUp { key: Key::Escape }], NONE, &mut surface);
    assert!(frame.running);
}

#[test]
fn a_stopped_game_is_left_alone() {
    let mut frame = FrameState::new(0, World::new());
    let mut surface = Surface::new(Color { r: 0, g: 0, b: 0 });
    frame.advance(16, &vec![Event::Quit], RIGHT, &mut surface);
    let stopped = frame;
    let picture = surface.clone();
    frame.advance(5000, &vec![], NONE, &mut surface);
    assert_eq!(frame, stopped);
    assert_eq!(surface, picture);
    frame.advance(3, &vec![Event::Other], RIGHT, &mut surface);
    assert_eq!(frame, stopped);
    assert_eq!(surface, picture);
}

#[test]
fn a_played_game_bounces_the_ball_off_the_paddle() {
    let mut frame = FrameState::new(0, World::new());
    let mut surface = Surface::new(Color { r: 0, g: 0, b: 0 });
    let mut now = 0;
    let mut launched = false;
    while now < 2000 {
        now += 16;
        assert!(frame.is_ready_at(now));
        frame.advance(now, &vec![], NONE, &mut surface);
        if !launched && frame.world.ball.boost > 0 {
            launched = true;
            assert_eq!(frame.world.ball.direction.y, -1);
            assert_eq!(frame.world.ball.boost, 399);
            assert_eq!(frame.world.ball.position.y, 71900 - 450 * 16);
        }
    }
    assert!(launched);
    assert!(frame.running);
}
