use custom_plot_backend::canvas::{Command, Frame, Path, Point};
use custom_plot_backend::single::{single_of_i32, single_of_u32};
use custom_plot_backend::{BackendColor, BackendStyle, CustomPlotFrame};

const SIGNED: [i32; 30] = [
    0,
    1,
    -1,
    400,
    -300,
    16777215,
    16777216,
    16777217,
    16777218,
    16777219,
    -16777217,
    -16777219,
    33554430,
    33554431,
    33554432,
    33554433,
    33554434,
    33554435,
    33554436,
    -33554434,
    67108868,
    1073741823,
    2147483583,
    2147483584,
    2147483585,
    2147483646,
    i32::MAX,
    i32::MIN,
    i32::MIN + 1,
    -2147483584,
];

#[test]
fn signed_conversion_is_the_machine_conversion() {
    for v in SIGNED {
        let got = single_of_i32(v);
        assert_eq!(got as f32, v as f32, "{}", v);
        assert_eq!((v as f32) as i64, got, "{}", v);
    }
}

#[test]
fn unsigned_conversion_is_the_machine_conversion() {
    let cases = [
        0u32,
        1,
        3,
        16777216,
        16777217,
        16777219,
        33554434,
        2147483648,
        2147483775,
        2147483776,
        2147483777,
        4294967039,
        4294967040,
        4294967167,
        4294967168,
        4294967295,
    ];
    for v in cases {
        let got = single_of_u32(v);
        assert_eq!(got as f32, v as f32, "{}", v);
        assert_eq!((v as f32) as i64, got, "{}", v);
    }
}

#[test]
fn conversion_agrees_with_the_machine_on_a_sweep() {
    let mut v: i64 = i32::MIN as i64;
    while v <= i32::MAX as i64 {
        let x = v as i32;
        assert_eq!(single_of_i32(x), (x as f32) as i64, "{}", x);
        v += 104_729;
    }
    let mut u: u64 = 0;
    while u <= u32::MAX as u64 {
        let x = u as u32;
        assert_eq!(single_of_u32(x), (x as f32) as i64, "{}", x);
        u += 130_003;
    }
}

#[test]
fn small_integers_are_kept() {
    assert_eq!(single_of_i32(0), 0);
    assert_eq!(single_of_i32(16777216), 16777216);
    assert_eq!(single_of_i32(-16777216), -16777216);
    assert_eq!(single_of_u32(16777215), 16777215);
}

#[test]
fn ties_go_to_the_even_significand() {
    assert_eq!(single_of_i32(16777217), 16777216);
    assert_eq!(single_of_i32(16777219), 16777220);
    assert_eq!(single_of_i32(-16777217), -16777216);
    assert_eq!(single_of_i32(33554434), 33554432);
    assert_eq!(single_of_i32(33554438), 33554440);
}

#[test]
fn largest_integers_round_up_to_a_power_of_two() {
    assert_eq!(single_of_i32(i32::MAX), 2147483648);
    assert_eq!(single_of_i32(i32::MIN), -2147483648);
    assert_eq!(single_of_u32(u32::MAX), 4294967296);
    assert_eq!(single_of_i32(2147483583), 2147483520);
    assert_eq!(single_of_i32(2147483584), 2147483648);
}

#[test]
fn pixel_comes_back_unchanged_up_to_two_to_the_24() {
    for c in [(0, 0), (5, 5), (-400, 300), (16777216, -16777216), (16777215, 1)] {
        let there = CustomPlotFrame::gen_bg_point(&c);
        assert_eq!(there, Point { x: c.0 as i64, y: c.1 as i64 });
        assert_eq!(CustomPlotFrame::to_backend_coord(&there), c);
    }
}

#[test]
fn pixel_comes_back_within_one_unit_up_to_two_to_the_25() {
    for c in [(16777217, -16777217), (33554431, -33554431), (33554432, -33554432), (20000001, 3)] {
        let there = CustomPlotFrame::gen_bg_point(&c);
        let back = CustomPlotFrame::to_backend_coord(&there);
        assert!((back.0 as i64 - c.0 as i64).abs() <= 1, "{:?}", c);
        assert!((back.1 as i64 - c.1 as i64).abs() <= 1, "{:?}", c);
        assert_eq!(back, ((c.0 as f32) as i32, (c.1 as f32) as i32));
    }
}

#[test]
fn pixel_beyond_two_to_the_25_can_come_back_two_units_off() {
    let c = (33554434, -33554434);
    let back = CustomPlotFrame::to_backend_coord(&CustomPlotFrame::gen_bg_point(&c));
    assert_eq!(back, (33554432, -33554432));
    assert_eq!(back, ((c.0 as f32) as i32, (c.1 as f32) as i32));
}

#[test]
fn pixel_at_the_end_of_the_range_is_held_in_the_range() {
    let c = (i32::MAX, i32::MIN);
    let there = CustomPlotFrame::gen_bg_point(&c);
    assert_eq!(there, Point { x: 2147483648, y: -2147483648 });
    assert_eq!(CustomPlotFrame::to_backend_coord(&there), (i32::MAX, i32::MIN));
    let last_but_one = (i32::MAX - 1, 0);
    let back = CustomPlotFrame::to_backend_coord(&CustomPlotFrame::gen_bg_point(&last_but_one));
    assert_eq!(back, (i32::MAX, 0));
    assert_eq!(back.0, ((i32::MAX - 1) as f32) as i32);
}

#[test]
fn canvas_point_outside_the_pixel_range_is_held_in_the_range() {
    let far = Point { x: 5_000_000_000, y: -5_000_000_000 };
    assert_eq!(CustomPlotFrame::to_backend_coord(&far), (i32::MAX, i32::MIN));
    assert_eq!(CustomPlotFrame::to_backend_coord(&Point { x: 7, y: -7 }), (7, -7));
}

#[test]
fn pixel_comes_back_within_64_units_everywhere() {
    for v in SIGNED {
        let back = CustomPlotFrame::to_backend_coord(&CustomPlotFrame::gen_bg_point(&(v, v)));
        assert!((back.0 as i64 - v as i64).abs() <= 64, "{}", v);
        assert_eq!(back.0, back.1);
    }
}

#[test]
fn wide_stroke_and_large_radius_are_rounded_like_coordinates() {
    let style = BackendStyle {
        color: BackendColor { alpha_bits: 1.0f64.to_bits(), rgb: (0, 0, 0) },
        stroke_width: 16777217,
    };
    let mut frame = Frame::new(1, 1);
    CustomPlotFrame::new(&mut frame).draw_circle((0, 0), 33554434, &style, false).unwrap();
    match &frame.commands()[0] {
        Command::Stroke { path: Path::Circle { radius, .. }, stroke } => {
            assert_eq!(*radius, 33554432);
            assert_eq!(stroke.width, 16777216);
        }
        other => panic!("not a stroked circle: {:?}", other),
    }
}

#[test]
fn conversion_agrees_with_the_machine_about_every_power_of_two() {
    for bits in 23..=31u32 {
        let power: i64 = 1 << bits;
        for offset in -300..=300i64 {
            let v = power + offset;
            if v <= i32::MAX as i64 {
                let x = v as i32;
                assert_eq!(single_of_i32(x), (x as f32) as i64, "{}", x);
                assert_eq!(single_of_i32(-x), ((-x) as f32) as i64, "{}", -x);
            }
            let u = v as u32;
            assert_eq!(single_of_u32(u), (u as f32) as i64, "{}", u);
        }
    }
    for offset in 0..=600u32 {
        let u = u32::MAX - offset;
        assert_eq!(single_of_u32(u), (u as f32) as i64, "{}", u);
    }
    assert_eq!(single_of_i32(i32::MIN), (i32::MIN as f32) as i64);
}
