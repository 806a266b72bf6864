use paddleball::raster::{draw_box, draw_circle, draw_horizontal_line, draw_vertical_line};
use paddleball::surface::{Color, Plot, Surface};

const INK: Color = Color { r: 9, g: 8, b: 7 };

fn fresh() -> Surface {
    Surface::new(INK)
}

fn positions(surface: &Surface) -> Vec<(i32, i32)> {
    let mut out = Vec::new();
    for plot in &surface.plots {
        out.push((plot.x, plot.y));
    }
    out
}

fn disc_by_floats(origin: (i32, i32), radius: i32) -> Vec<(i32, i32)> {
    let (ox, oy) = origin;
    let r2 = radius * radius;
    let mut out = Vec::new();
    for x in -radius..radius {
        let y: i32 = (f32::sqrt((r2 - x * x) as f32) + 0.5) as i32;
        for row in (oy - y)..(oy + y) {
            out.push((ox + x, row));
        }
    }
    out
}

#[test]
fn new_surface_is_blank() {
    let surface = Surface::new(INK);
    assert_eq!(surface.background, INK);
    assert_eq!(surface.color, INK);
    assert!(surface.plots.is_empty());
}

#[test]
fn draw_point_records_position_and_current_color() {
    let mut surface = fresh();
    surface.draw_point(3, -4);
    let red = Color { r: 255, g: 0, b: 0 };
    surface.set_draw_color(red);
    surface.draw_point(5, 6);
    assert_eq!(
        surface.plots,
        vec![Plot { x: 3, y: -4, color: INK }, Plot { x: 5, y: 6, color: red }]
    );
    assert_eq!(surface.background, INK);
    assert_eq!(surface.color, red);
}

#[test]
fn set_draw_color_keeps_background_and_plots() {
    let mut surface = fresh();
    surface.draw_point(1, 1);
    let blue = Color { r: 0, g: 0, b: 255 };
    surface.set_draw_color(blue);
    assert_eq!(surface.color, blue);
    assert_eq!(surface.background, INK);
    assert_eq!(surface.plots, vec![Plot { x: 1, y: 1, color: INK }]);
}

#[test]
fn clear_takes_the_current_color_and_forgets_plots() {
    let mut surface = fresh();
    surface.draw_point(1, 1);
    let grey = Color { r: 24, g: 24, b: 24 };
    surface.set_draw_color(grey);
    surface.clear();
    assert_eq!(surface.background, grey);
    assert_eq!(surface.color, grey);
    assert!(surface.plots.is_empty());
}

#[test]
fn horizontal_line_plots_the_half_open_range() {
    let mut surface = fresh();
    draw_horizontal_line(&mut surface, 3, 7, 5);
    assert_eq!(positions(&surface), vec![(3, 5), (4, 5), (5, 5), (6, 5)]);
    for plot in &surface.plots {
        assert_eq!(plot.color, INK);
    }
}

#[test]
fn horizontal_line_plots_x_max_minus_x_min_pixels() {
    let mut width = 0;
    while width <= 50 {
        let mut surface = fresh();
        draw_horizontal_line(&mut surface, -20, -20 + width, 9);
        assert_eq!(surface.plots.len(), width as usize);
        let mut i = 0;
        while i < width {
            assert_eq!(surface.plots[i as usize], Plot { x: -20 + i, y: 9, color: INK });
            i += 1;
        }
        width += 1;
    }
}

#[test]
fn horizontal_line_is_empty_when_not_ascending() {
    let mut surface = fresh();
    draw_horizontal_line(&mut surface, 4, 4, 0);
    draw_horizontal_line(&mut surface, 5, 4, 0);
    draw_horizontal_line(&mut surface, i32::MAX, i32::MIN, 0);
    assert!(surface.plots.is_empty());
}

#[test]
fn horizontal_line_reaches_the_last_coordinate() {
    let mut surface = fresh();
    draw_horizontal_line(&mut surface, i32::MAX - 2, i32::MAX, i32::MIN);
    assert_eq!(
        positions(&surface),
        vec![(i32::MAX - 2, i32::MIN), (i32::MAX - 1, i32::MIN)]
    );
}

#[test]
fn horizontal_line_appends_to_earlier_plots() {
    let mut surface = fresh();
    surface.draw_point(100, 100);
    draw_horizontal_line(&mut surface, 0, 2, 1);
    assert_eq!(positions(&surface), vec![(100, 100), (0, 1), (1, 1)]);
}

#[test]
fn vertical_line_plots_the_half_open_range() {
    let mut surface = fresh();
    draw_vertical_line(&mut surface, 2, -1, 3);
    assert_eq!(positions(&surface), vec![(2, -1), (2, 0), (2, 1), (2, 2)]);
}

#[test]
fn vertical_line_is_empty_when_not_ascending() {
    let mut surface = fresh();
    draw_vertical_line(&mut surface, 0, 7, 7);
    draw_vertical_line(&mut surface, 0, 8, 7);
    assert!(surface.plots.is_empty());
}

#[test]
fn box_is_filled_row_by_row() {
    let mut surface = fresh();
    draw_box(&mut surface, (1, 10), (4, 12));
    assert_eq!(
        positions(&surface),
        vec![(1, 10), (2, 10), (3, 10), (1, 11), (2, 11), (3, 11)]
    );
}

#[test]
fn box_is_empty_when_empty_or_inverted() {
    let mut surface = fresh();
    draw_box(&mut surface, (1, 1), (1, 5));
    draw_box(&mut surface, (1, 1), (5, 1));
    draw_box(&mut surface, (5, 5), (1, 1));
    draw_box(&mut surface, (1, 5), (5, 1));
    draw_box(&mut surface, (5, 1), (1, 5));
    assert!(surface.plots.is_empty());
}

#[test]
fn box_of_the_paddle_has_1800_pixels() {
    let mut surface = fresh();
    draw_box(&mut surface, (354, 739), (444, 759));
    assert_eq!(surface.plots.len(), 90 * 20);
    assert_eq!(positions(&surface)[0], (354, 739));
    assert_eq!(positions(&surface)[1799], (443, 758));
}

#[test]
fn circle_of_radius_one() {
    let mut surface = fresh();
    draw_circle(&mut surface, (10, 20), 1);
    assert_eq!(positions(&surface), vec![(10, 19), (10, 20)]);
}

#[test]
fn circle_of_radius_two() {
    let mut surface = fresh();
    draw_circle(&mut surface, (0, 0), 2);
    assert_eq!(
        positions(&surface),
        vec![
            (-1, -2),
            (-1, -1),
            (-1, 0),
            (-1, 1),
            (0, -2),
            (0, -1),
            (0, 0),
            (0, 1),
            (1, -2),
            (1, -1),
            (1, 0),
            (1, 1),
        ]
    );
}

#[test]
fn circle_is_empty_for_radius_zero_or_less() {
    let mut surface = fresh();
    draw_circle(&mut surface, (5, 5), 0);
    draw_circle(&mut surface, (5, 5), -3);
    draw_circle(&mut surface, (i32::MAX, i32::MIN), i32::MIN);
    assert!(surface.plots.is_empty());
}

#[test]
fn circle_matches_the_floating_point_formula() {
    let mut radius = 1;
    while radius <= 64 {
        let mut surface = fresh();
        draw_circle(&mut surface, (399, 399), radius);
        assert_eq!(positions(&surface), disc_by_floats((399, 399), radius));
        radius += 1;
    }
}

#[test]
fn circle_of_the_ball_column_heights() {
    let mut surface = fresh();
    draw_circle(&mut surface, (0, 0), 20);
    let mut heights = [0usize; 41];
    for plot in &surface.plots {
        heights[(plot.x + 20) as usize] += 1;
    }
    // Column -20 is in range but empty; column +20 is out of range.
    assert_eq!(heights[0], 0);
    assert_eq!(heights[40], 0);
    assert_eq!(heights[1], 12);
    assert_eq!(heights[20], 40);
    assert_eq!(heights[39], 12);
    assert_eq!(heights[10], 34);
}

#[test]
fn circle_is_symmetric_about_its_centre_column() {
    let mut radius = 1;
    while radius <= 40 {
        let mut surface = fresh();
        draw_circle(&mut surface, (7, -3), radius);
        let cells = positions(&surface);
        for &(x, y) in &cells {
            let mirrored = (7 - (x - 7), y);
            assert!(cells.contains(&mirrored));
        }
        radius += 1;
    }
}

#[test]
fn circle_spans_are_half_open_in_the_rows() {
    let mut surface = fresh();
    draw_circle(&mut surface, (0, 0), 5);
    let cells = positions(&surface);
    assert!(cells.contains(&(0, -5)));
    assert!(!cells.contains(&(0, 5)));
    assert!(cells.contains(&(0, 4)));
}

#[test]
fn circle_at_the_edge_of_the_coordinates() {
    let mut surface = fresh();
    draw_circle(&mut surface, (i32::MAX - 1, i32::MAX - 2), 2);
    let cells = positions(&surface);
    assert_eq!(cells.len(), 12);
    assert!(cells.contains(&(i32::MAX, i32::MAX - 1)));
    let mut low = fresh();
    draw_circle(&mut low, (i32::MIN + 2, i32::MIN + 2), 2);
    assert!(positions(&low).contains(&(i32::MIN + 1, i32::MIN)));
}
