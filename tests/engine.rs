use box_drawing::commands::{Commands, DashedHorLine, DashedVertLine, HorBar, VertBar};
use box_drawing::drawing_command::DrawingCommand;
use box_drawing::font::Font;
use box_drawing::geometry::{Canvas, Direction, Metrics, PathOp, Point, Shade, Side};
use box_drawing::recipe::DrawError;

fn p(x: i64, y: i64) -> Point {
    Point { x, y }
}

fn rect(a: Point, b: Point, c: Point, d: Point) -> Vec<PathOp> {
    vec![
        PathOp::MoveTo(a),
        PathOp::LineTo(b),
        PathOp::LineTo(c),
        PathOp::LineTo(d),
        PathOp::ClosePath,
    ]
}

fn ctx() -> DrawingCommand {
    DrawingCommand::new(Metrics::default())
}

#[test]
fn it_works() {
    let result = 2 + 2;
    assert_eq!(result, 4);
}

#[test]
fn dashed_line_builders_set_fields() {
    let p = DashedVertLine::new(1).length(-3).stroke(-4);
    assert_eq!(p.step, 1);
    assert_eq!(p.length, Some(-3));
    assert_eq!(p.stroke, Some(-4));
    let q = DashedHorLine::new(2).stroke(-4);
    assert_eq!(q.step, 2);
    assert_eq!(q.width, None);
    assert_eq!(q.stroke, Some(-4));
}

#[test]
fn builders_set_one_field() {
    let h = HorBar::default().fatness(2);
    assert_eq!(h.fatness, Some(2));
    assert_eq!(h.median, None);
    let v = VertBar::default().fatness(3);
    assert_eq!(v.fatness, Some(3));
    assert_eq!(v.butt_top, None);
}

#[test]
fn light_horizontal_with_default_metrics() {
    let font = Font::new(Metrics::default());
    let path = font.path_of(0x2500).unwrap();
    assert_eq!(path, rect(p(-80, 220), p(680, 220), p(680, 380), p(-80, 380)));
}

#[test]
fn default_hor_bar_spans_glyph_with_half_butts() {
    let mut c = ctx();
    Commands::HorBar(HorBar::default()).execute(&mut c);
    assert_eq!(c.into_path(), rect(p(-80, 220), p(680, 220), p(680, 380), p(-80, 380)));
}

#[test]
fn hor_bar_with_other_metrics() {
    let m = Metrics::new(500, 1000, 250, 100, 3, 250, 1000, 900, 60, 5523).unwrap();
    let mut c = DrawingCommand::new(m);
    Commands::HorBar(HorBar::default()).execute(&mut c);
    assert_eq!(c.into_path(), rect(p(-30, 200), p(530, 200), p(530, 300), p(-30, 300)));
}

#[test]
fn heavy_horizontal_doubles_thickness() {
    let font = Font::new(Metrics::default());
    let path = font.path_of(0x2501).unwrap();
    assert_eq!(path, rect(p(-80, 140), p(680, 140), p(680, 460), p(-80, 460)));
}

#[test]
fn light_vertical_bar() {
    let font = Font::new(Metrics::default());
    let path = font.path_of(0x2502).unwrap();
    assert_eq!(path, rect(p(220, -400), p(380, -400), p(380, 1000), p(220, 1000)));
}

#[test]
fn triple_dashed_horizontal() {
    let font = Font::new(Metrics::default());
    let path = font.path_of(0x2504).unwrap();
    // Segments of 200, gap 66: dashes of 134 centered by 33.
    let mut expected = rect(p(33, 220), p(167, 220), p(167, 380), p(33, 380));
    expected.extend(rect(p(233, 220), p(367, 220), p(367, 380), p(233, 380)));
    expected.extend(rect(p(433, 220), p(567, 220), p(567, 380), p(433, 380)));
    assert_eq!(path, expected);
}

#[test]
fn dashed_line_count_and_length() {
    for step in 1..=10i64 {
        let mut c = ctx();
        c.dashed_hor_line(step, Some(600), Some(100));
        let path = c.into_path();
        let l = 600 / step;
        let gap = l / step;
        assert_eq!(path.len() as i64, 5 * step);
        for k in 0..step as usize {
            match (path[5 * k], path[5 * k + 1]) {
                (PathOp::MoveTo(a), PathOp::LineTo(b)) => {
                    assert_eq!(b.x - a.x, l - gap);
                    assert!(a.x >= 0 && b.x <= 600);
                }
                _ => panic!("not a rectangle"),
            }
        }
    }
}

#[test]
fn dashed_line_with_no_step_draws_nothing() {
    let mut c = ctx();
    c.dashed_hor_line(0, None, None);
    c.dashed_hor_line(-2, None, None);
    assert!(c.into_path().is_empty());
}

#[test]
fn dashed_vertical_double() {
    let font = Font::new(Metrics::default());
    let path = font.path_of(0x254E).unwrap();
    // Length 1200 from -300: segments of 600, gap 300, centered by 150.
    let mut expected = rect(p(220, -150), p(380, -150), p(380, 150), p(220, 150));
    expected.extend(rect(p(220, 450), p(380, 450), p(380, 750), p(220, 750)));
    assert_eq!(path, expected);
}

#[test]
fn poly_with_two_distinct_points_draws_nothing() {
    let mut c = ctx();
    c.draw_poly(&[p(0, 0), p(0, 0), p(5, 5), p(0, 0)]);
    assert!(c.into_path().is_empty());
}

#[test]
fn poly_skips_repeated_neighbours() {
    let mut c = ctx();
    c.draw_poly(&[p(0, 0), p(5, 0), p(5, 0), p(5, 5)]);
    assert_eq!(
        c.into_path(),
        vec![
            PathOp::MoveTo(p(0, 0)),
            PathOp::LineTo(p(5, 0)),
            PathOp::LineTo(p(5, 5)),
            PathOp::ClosePath
        ]
    );
}

#[test]
fn poly_of_distinct_points_has_one_line_fewer() {
    let mut c = ctx();
    c.draw_poly(&[p(0, 0), p(5, 0), p(5, 5), p(0, 5)]);
    let path = c.into_path();
    let lines = path.iter().filter(|op| matches!(op, PathOp::LineTo(_))).count();
    assert_eq!(lines, 3);
    assert_eq!(path.len(), 5);
}

fn mirror(ops: &[PathOp], axis: i64) -> Vec<PathOp> {
    let m = |q: Point| p(axis - q.x, q.y);
    ops.iter()
        .map(|op| match *op {
            PathOp::MoveTo(a) => PathOp::MoveTo(m(a)),
            PathOp::LineTo(a) => PathOp::LineTo(m(a)),
            PathOp::CurveTo(a, b, c) => PathOp::CurveTo(m(a), m(b), m(c)),
            PathOp::ClosePath => PathOp::ClosePath,
        })
        .collect()
}

#[test]
fn arc_top_left_mirrors_top_right() {
    let mut left = ctx();
    left.arc(p(300, 1000), p(600, 300), Side::TopLeft, 160, 300, None);
    let mut right = ctx();
    right.arc(p(300, 1000), p(0, 300), Side::TopRight, 160, 300, None);
    let left = left.into_path();
    assert_eq!(right.into_path(), mirror(&left, 600));
    assert_eq!(left.len(), 9);
    assert_eq!(left[0], PathOp::MoveTo(p(220, 1000)));
    // The inner curve's control distance: 300 - 80 = 220, scaled by 0.5523, rounded down.
    assert_eq!(left[3], PathOp::CurveTo(p(380, 121), p(479, 220), p(600, 220)));
}

#[test]
fn diagonal_uses_floor_square_root() {
    let mut c = ctx();
    c.diagonal(&p(0, 900), &p(600, -300), Direction::TopDown);
    // Diagonal length 1341: x offset 80 * 1341 / 1200, y offset 80 * 1341 / 600.
    assert_eq!(
        c.into_path(),
        vec![
            PathOp::MoveTo(p(89, 900)),
            PathOp::LineTo(p(0, 900)),
            PathOp::LineTo(p(0, 722)),
            PathOp::LineTo(p(511, -300)),
            PathOp::LineTo(p(600, -300)),
            PathOp::LineTo(p(600, -122)),
            PathOp::ClosePath
        ]
    );
}

#[test]
fn diagonal_bottom_up() {
    let mut c = ctx();
    c.diagonal(&p(0, -300), &p(600, 900), Direction::BottomUp);
    let path = c.into_path();
    assert_eq!(path[0], PathOp::MoveTo(p(0, -122)));
    assert_eq!(path[2], PathOp::LineTo(p(89, -300)));
    assert_eq!(path[3], PathOp::LineTo(p(600, 722)));
}

#[test]
fn corner_half_bars() {
    let font = Font::new(Metrics::default());
    let path = font.path_of(0x250C).unwrap();
    let mut expected = rect(p(220, 220), p(680, 220), p(680, 380), p(220, 380));
    expected.extend(rect(p(220, -400), p(380, -400), p(380, 300), p(220, 300)));
    assert_eq!(path, expected);
}

#[test]
fn half_bar_drops_inner_butt_when_it_differs_from_stroke() {
    let m = Metrics::new(600, 1400, 300, 160, 2, 300, 1400, 1200, 100, 5523).unwrap();
    let mut c = DrawingCommand::new(m);
    c.hor_half_bar(Side::TopLeft, None, None, None, None);
    assert_eq!(c.into_path(), rect(p(-50, 220), p(300, 220), p(300, 380), p(-50, 380)));
}

#[test]
fn split_bars() {
    let mut c = ctx();
    c.hor_split_bar(None, None, None);
    let mut expected = rect(p(-80, 380), p(680, 380), p(680, 540), p(-80, 540));
    expected.extend(rect(p(-80, 60), p(680, 60), p(680, 220), p(-80, 220)));
    assert_eq!(c.into_path(), expected);
    let mut v = ctx();
    v.vert_split_bar(None, None, None);
    let mut expected = rect(p(60, -400), p(220, -400), p(220, 1000), p(60, 1000));
    expected.extend(rect(p(380, -400), p(540, -400), p(540, 1000), p(380, 1000)));
    assert_eq!(v.into_path(), expected);
}

#[test]
fn inner_corner_has_notch() {
    let mut c = ctx();
    c.inner_corner(Side::TopLeft, None, None);
    let mut expected = rect(p(-80, 380), p(220, 380), p(220, 540), p(-80, 540));
    expected.extend(rect(p(60, 380), p(220, 380), p(220, 1000), p(60, 1000)));
    assert_eq!(c.into_path(), expected);
}

#[test]
fn outer_corner_bottom_right() {
    let mut c = ctx();
    c.outer_corner(Side::BottomRight, None, None);
    let mut expected = rect(p(60, 380), p(680, 380), p(680, 540), p(60, 540));
    expected.extend(rect(p(60, -400), p(220, -400), p(220, 540), p(60, 540)));
    assert_eq!(c.into_path(), expected);
}

#[test]
fn box_defaults_to_block() {
    let mut c = ctx();
    c.box_(None, None);
    assert_eq!(c.into_path(), rect(p(0, -400), p(600, -400), p(600, 1000), p(0, 1000)));
}

#[test]
fn polka_shade_dot_count() {
    let mut c = ctx();
    c.polka_shade(Shade::TwentyFive);
    let path = c.into_path();
    // 3 columns of 7 rows, two dots each, six operations per dot.
    assert_eq!(path.len(), 3 * 7 * 2 * 6);
    assert_eq!(path[0], PathOp::MoveTo(p(-24, -400)));
    assert_eq!(path[1], PathOp::CurveTo(p(-24, -413), p(-13, -424), p(0, -424)));
}

#[test]
fn box_shade_and_vertical_shade() {
    let mut c = ctx();
    c.shade(Shade::Fifty);
    assert_eq!(c.into_path().len(), 6 * 14 * 2 * 5);
    let mut v = ctx();
    v.vertical_shade(Shade::TwentyFive);
    let path = v.into_path();
    assert_eq!(path.len(), 3 * 5);
    assert_eq!(path[0..5].to_vec(), rect(p(0, -400), p(20, -400), p(20, 1000), p(0, 1000)));
}

#[test]
fn striped_shade_stripes() {
    let mut c = ctx();
    c.striped_shade(Shade::TwentyFive);
    let path = c.into_path();
    assert!(!path.is_empty());
    assert!(matches!(path[0], PathOp::MoveTo(_)));
    assert_eq!(path[path.len() - 1], PathOp::ClosePath);
    for op in &path {
        match op {
            PathOp::MoveTo(q) | PathOp::LineTo(q) => {
                assert!(q.x >= 0 && q.x <= 600);
            }
            PathOp::ClosePath => {}
            PathOp::CurveTo(..) => panic!("stripes have no curves"),
        }
    }
}

#[test]
fn unknown_glyph_is_an_error() {
    let font = Font::new(Metrics::default());
    assert_eq!(font.path_of(0x41), Err(DrawError::NoSuchGlyph(0x41)));
    assert!(!Font::contains(0x41));
    assert!(Font::contains(0x2517));
}

#[derive(Default)]
struct Recorder {
    calls: Vec<String>,
}

impl Canvas for Recorder {
    fn move_to(&mut self, pt: &Point) {
        self.calls.push(format!("M {} {}", pt.x, pt.y));
    }
    fn line_to(&mut self, pt: &Point) {
        self.calls.push(format!("L {} {}", pt.x, pt.y));
    }
    fn curve_to(&mut self, a: &Point, b: &Point, c: &Point) {
        self.calls.push(format!("C {} {} {} {} {} {}", a.x, a.y, b.x, b.y, c.x, c.y));
    }
    fn close_path(&mut self) {
        self.calls.push("Z".to_string());
    }
}

#[test]
fn draw_to_replays_on_canvas() {
    let font = Font::new(Metrics::default());
    let mut canvas = Recorder::default();
    assert_eq!(font.draw_to(0x2500, &mut canvas), Ok(()));
    assert_eq!(canvas.calls, vec!["M -80 220", "L 680 220", "L 680 380", "L -80 380", "Z"]);
    let mut other = Recorder::default();
    assert_eq!(font.draw_to(0x2600, &mut other), Err(DrawError::NoSuchGlyph(0x2600)));
    assert!(other.calls.is_empty());
}

#[test]
fn metrics_out_of_range_are_refused() {
    assert!(Metrics::new(0, 1400, 300, 160, 2, 300, 1400, 1200, 160, 5523).is_none());
    assert!(Metrics::new(600, 1400, 300, 160, 2, 300, 1400, 0, 160, 5523).is_none());
    assert!(Metrics::new(600, 1400, 300, 160, 2, 300, 1400, 1200, 160, 10001).is_none());
    assert!(Metrics::new(2_000_000, 1400, 300, 160, 2, 300, 1400, 1200, 160, 5523).is_none());
    let m = Metrics::new(600, 1400, 300, 160, 2, 300, 1400, 1200, 160, 5523).unwrap();
    assert_eq!(m, Metrics::default());
    assert_eq!(m.fat_stroke, 320);
    assert_eq!(m.block_origin, p(0, -400));
    assert_eq!(m.block_top, p(600, 1000));
}

#[test]
fn poly_of_no_points_draws_nothing() {
    let mut c = ctx();
    c.draw_poly(&[]);
    c.draw_poly(&[p(1, 1)]);
    assert!(c.into_path().is_empty());
}

#[test]
fn every_catalogue_glyph_draws_with_default_metrics() {
    let font = Font::new(Metrics::default());
    let mut count = 0;
    for c in 0x2500u32..0x2600 {
        match font.path_of(c) {
            Ok(path) => {
                assert!(Font::contains(c));
                assert!(!path.is_empty());
                count += 1;
            }
            Err(e) => {
                assert!(!Font::contains(c));
                assert_eq!(e, DrawError::NoSuchGlyph(c));
            }
        }
    }
    assert_eq!(count, 28);
    assert_eq!(Font::recipe(0x2513).unwrap().name, "heavydnleftbxd");
}

fn xs(path: &[PathOp]) -> Vec<(i64, i64)> {
    path.chunks(5)
        .map(|r| match (r[0], r[1]) {
            (PathOp::MoveTo(a), PathOp::LineTo(b)) => (a.x, b.x),
            _ => panic!("not a rectangle"),
        })
        .collect()
}

fn ys(path: &[PathOp]) -> Vec<(i64, i64)> {
    path.chunks(5)
        .map(|r| match (r[0], r[2]) {
            (PathOp::MoveTo(a), PathOp::LineTo(c)) => (a.y, c.y),
            _ => panic!("not a rectangle"),
        })
        .collect()
}

#[test]
fn short_dashed_line_draws_at_most_step_dashes() {
    let mut c = ctx();
    c.dashed_hor_line(4, Some(11), None);
    let path = c.into_path();
    assert_eq!(xs(&path), vec![(0, 2), (2, 4), (4, 6), (6, 8)]);
    assert_eq!(path[0], PathOp::MoveTo(p(0, 220)));
    assert_eq!(path[2], PathOp::LineTo(p(2, 380)));
}

#[test]
fn dashed_line_omits_last_dash_reaching_the_end() {
    let mut c = ctx();
    c.dashed_hor_line(4, Some(8), None);
    assert_eq!(xs(&c.into_path()), vec![(0, 2), (2, 4), (4, 6)]);
}

#[test]
fn dashed_lines_stay_within_span_for_small_widths() {
    for width in 1..=60i64 {
        for step in 1..=8i64 {
            let mut c = ctx();
            c.dashed_hor_line(step, Some(width), None);
            let dashes = xs(&c.into_path());
            let n = dashes.len() as i64;
            assert!(n == step || n == step - 1, "width {} step {}", width, step);
            let l = width / step;
            let gap = l / step;
            for (i, (x0, x1)) in dashes.iter().enumerate() {
                assert_eq!(x1 - x0, l - gap);
                assert!(*x0 >= 0 && *x1 <= width);
                if i + 1 < dashes.len() {
                    assert!(*x1 <= dashes[i + 1].0);
                }
            }
        }
    }
}

#[test]
fn short_vertical_dashed_line_uses_its_own_span() {
    let mut c = ctx();
    c.dashed_vert_line(4, Some(11), None);
    let path = c.into_path();
    // Span from 300 - 5 = 295 to 306; segments of 2 with no gap.
    assert_eq!(ys(&path), vec![(295, 297), (297, 299), (299, 301), (301, 303)]);
    assert_eq!(path[0], PathOp::MoveTo(p(220, 295)));
    let mut d = ctx();
    d.dashed_vert_line(3, Some(300), None);
    // Segments of 100, gap 33, centered by 16, over the span from 150 to 450.
    assert_eq!(ys(&d.into_path()), vec![(166, 233), (266, 333), (366, 433)]);
}
