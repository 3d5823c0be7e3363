use mandelbrot::cloud::{generate_points, sample_for, scan_pixels, Pixel, PointX, Sample};
use mandelbrot::color::{Color, Palette};
use mandelbrot::escape::{escape_step, EscapeOutcome, Step};
use mandelbrot::params::{InvalidArgument, RequestParams};

fn escaped(i: u32) -> EscapeOutcome {
    EscapeOutcome::Escaped { at_iteration: i }
}

fn px(i: i32, j: i32) -> Pixel {
    Pixel { i, j }
}

#[test]
fn validate_accepts_zero_sized_rectangle() {
    assert_eq!(RequestParams::new(0, 0, 1, 1).validate(), Ok(()));
    assert_eq!(RequestParams::new(8000, 8000, 300, -2).validate(), Ok(()));
}

#[test]
fn validate_reports_each_rule() {
    assert_eq!(
        RequestParams::new(-1, 5, 10, 1).validate(),
        Err(InvalidArgument::NegativeWidth)
    );
    assert_eq!(
        RequestParams::new(5, -1, 10, 1).validate(),
        Err(InvalidArgument::NegativeHeight)
    );
    assert_eq!(
        RequestParams::new(5, 5, 0, 1).validate(),
        Err(InvalidArgument::NonPositiveIterations)
    );
    assert_eq!(
        RequestParams::new(5, 5, -4, 1).validate(),
        Err(InvalidArgument::NonPositiveIterations)
    );
    assert_eq!(
        RequestParams::new(5, 5, 10, 0).validate(),
        Err(InvalidArgument::ZeroScaleFactor)
    );
}

#[test]
fn validate_reports_first_broken_rule() {
    assert_eq!(
        RequestParams::new(-1, -1, 0, 0).validate(),
        Err(InvalidArgument::NegativeWidth)
    );
    assert_eq!(
        RequestParams::new(2, -1, 0, 0).validate(),
        Err(InvalidArgument::NegativeHeight)
    );
    assert_eq!(
        RequestParams::new(2, 2, 0, 0).validate(),
        Err(InvalidArgument::NonPositiveIterations)
    );
}

#[test]
fn scan_is_inclusive_and_row_major() {
    let pixels = scan_pixels(&RequestParams::new(1, 2, 10, 1)).unwrap();
    assert_eq!(
        pixels,
        vec![px(0, 0), px(0, 1), px(0, 2), px(1, 0), px(1, 1), px(1, 2)]
    );
}

#[test]
fn scan_counts_inclusive_bounds() {
    assert_eq!(scan_pixels(&RequestParams::new(0, 0, 1, 1)).unwrap().len(), 1);
    assert_eq!(scan_pixels(&RequestParams::new(3, 4, 1, 1)).unwrap().len(), 20);
    assert_eq!(scan_pixels(&RequestParams::new(9, 0, 1, 1)).unwrap().len(), 10);
}

#[test]
fn scan_rejects_zero_scale_factor() {
    assert_eq!(
        scan_pixels(&RequestParams::new(4, 4, 10, 0)),
        Err(InvalidArgument::ZeroScaleFactor)
    );
}

#[test]
fn escape_step_decides_on_current_value() {
    assert_eq!(escape_step(0, 10, true), Step::Done(escaped(0)));
    assert_eq!(escape_step(4, 10, true), Step::Done(escaped(4)));
    assert_eq!(escape_step(4, 10, false), Step::Continue);
    assert_eq!(escape_step(9, 10, false), Step::Done(EscapeOutcome::Bounded));
    assert_eq!(escape_step(9, 10, true), Step::Done(escaped(9)));
}

#[test]
fn single_iteration_budget() {
    let palette = Palette::standard();
    let out = escape_step(0, 1, true);
    assert_eq!(out, Step::Done(escaped(0)));
    assert_eq!(palette.color_for(escaped(0)), Color::new(0, 0, 255));
    let stay = escape_step(0, 1, false);
    assert_eq!(stay, Step::Done(EscapeOutcome::Bounded));
    assert_eq!(palette.color_for(EscapeOutcome::Bounded), Color::new(0, 0, 0));
}

#[test]
fn palette_cycles_every_six_iterations() {
    let palette = Palette::standard();
    let expected = [
        Color::new(0, 0, 255),
        Color::new(32, 107, 203),
        Color::new(255, 100, 100),
        Color::new(255, 170, 100),
        Color::new(255, 200, 100),
        Color::new(0, 255, 0),
    ];
    for i in 0..18u32 {
        assert_eq!(palette.color_for(escaped(i)), expected[(i % 6) as usize]);
    }
    assert_eq!(palette.color_for(escaped(0)), palette.color_for(escaped(6)));
    assert_eq!(palette.color_for(escaped(u32::MAX)), expected[3]);
}

#[test]
fn bounded_points_are_black() {
    let palette = Palette::standard();
    assert_eq!(palette.color_for(EscapeOutcome::Bounded), Color::black());
    assert_eq!(Color::black(), Color::new(0, 0, 0));
}

#[test]
fn custom_palette_is_used() {
    let colors = [
        Color::new(1, 1, 1),
        Color::new(2, 2, 2),
        Color::new(3, 3, 3),
        Color::new(4, 4, 4),
        Color::new(5, 5, 5),
        Color::new(6, 6, 6),
    ];
    let palette = Palette::new(colors);
    assert_eq!(palette.color_for(escaped(4)), Color::new(5, 5, 5));
    assert_eq!(palette.color_for(escaped(11)), Color::new(6, 6, 6));
}

#[test]
fn sample_keeps_column_only_when_escaped() {
    let palette = Palette::standard();
    assert_eq!(
        sample_for(px(7, 3), escaped(2), &palette),
        Sample { x: PointX::Column(7), y: 3, color: Color::new(255, 100, 100) }
    );
    assert_eq!(
        sample_for(px(7, 3), EscapeOutcome::Bounded, &palette),
        Sample { x: PointX::OrbitReal, y: 3, color: Color::new(0, 0, 0) }
    );
}

#[test]
fn single_pixel_scenario() {
    // The one pixel (0, 0) of a 0 by 0 request with scale factor 1, mapped on
    // an 8000 by 8000 canvas, starts the orbit at c = (-2, 2).
    let params = RequestParams::new(0, 0, 10, 1);
    let pixels = scan_pixels(&params).unwrap();
    assert_eq!(pixels, vec![px(0, 0)]);
    let ax: f64 = 2.0 * 1.0;
    let cx = 0.0 / (8000.0 / (2.0 * ax)) - ax;
    let cy = -0.0 / (8000.0 / (2.0 * ax)) + ax;
    assert_eq!((cx, cy), (-2.0, 2.0));
    let zx = cx * cx - cy * cy + cx;
    let zy = 2.0 * cx * cy + cy;
    let outside = (zx * zx + zy * zy).sqrt() > 2.0;
    assert!(outside);
    let outcome = match escape_step(0, 10, outside) {
        Step::Done(o) => o,
        Step::Continue => panic!("the first step left the disc"),
    };
    assert_eq!(outcome, escaped(0));
    let points = generate_points(&params, &Palette::standard(), &vec![outcome]).unwrap();
    assert_eq!(
        points,
        vec![Sample { x: PointX::Column(0), y: 0, color: Color::new(0, 0, 255) }]
    );
}

#[test]
fn cloud_follows_scan_order() {
    let params = RequestParams::new(2, 1, 20, 1);
    let outcomes = vec![
        escaped(0),
        EscapeOutcome::Bounded,
        escaped(1),
        escaped(13),
        EscapeOutcome::Bounded,
        escaped(6),
    ];
    let palette = Palette::standard();
    let points = generate_points(&params, &palette, &outcomes).unwrap();
    assert_eq!(points.len(), 6);
    let expected = vec![
        Sample { x: PointX::Column(0), y: 0, color: Color::new(0, 0, 255) },
        Sample { x: PointX::OrbitReal, y: 1, color: Color::new(0, 0, 0) },
        Sample { x: PointX::Column(1), y: 0, color: Color::new(32, 107, 203) },
        Sample { x: PointX::Column(1), y: 1, color: Color::new(32, 107, 203) },
        Sample { x: PointX::OrbitReal, y: 0, color: Color::new(0, 0, 0) },
        Sample { x: PointX::Column(2), y: 1, color: Color::new(0, 0, 255) },
    ];
    assert_eq!(points, expected);
}

#[test]
fn cloud_colors_come_from_palette_or_black() {
    let params = RequestParams::new(3, 3, 50, 2);
    let outcomes: Vec<EscapeOutcome> = (0..16u32)
        .map(|k| if k % 5 == 0 { EscapeOutcome::Bounded } else { escaped(k * 3) })
        .collect();
    let palette = Palette::standard();
    let points = generate_points(&params, &palette, &outcomes).unwrap();
    assert_eq!(points.len(), 16);
    for p in &points {
        assert!(p.color == Color::black() || palette.colors.contains(&p.color));
    }
}

#[test]
fn generation_is_deterministic() {
    let params = RequestParams::new(2, 2, 5, 1);
    let outcomes: Vec<EscapeOutcome> = (0..9u32)
        .map(|k| if k % 2 == 0 { escaped(k) } else { EscapeOutcome::Bounded })
        .collect();
    let palette = Palette::standard();
    let first = generate_points(&params, &palette, &outcomes).unwrap();
    let second = generate_points(&params, &palette, &outcomes).unwrap();
    assert_eq!(first, second);
}

#[test]
fn generation_rejects_invalid_request() {
    let palette = Palette::standard();
    let none: Vec<EscapeOutcome> = Vec::new();
    assert_eq!(
        generate_points(&RequestParams::new(4, 4, 10, 0), &palette, &none),
        Err(InvalidArgument::ZeroScaleFactor)
    );
    assert_eq!(
        generate_points(&RequestParams::new(-1, 4, 10, 1), &palette, &none),
        Err(InvalidArgument::NegativeWidth)
    );
    assert_eq!(
        generate_points(&RequestParams::new(4, 4, 0, 1), &palette, &none),
        Err(InvalidArgument::NonPositiveIterations)
    );
}
