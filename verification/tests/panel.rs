use couch_gui::panel::{
    compose, compose_window, copy_region, fill, iris_frame, isqrt, refresh_all, slide_offset,
    stroke_window, swizzled, window_run, Abgr, Arrive, FrameCost, Rect, Shown, SlideCost, Surface,
    travels, Window, IRIS_RING,
};

/// A share of a transition, by its bits.
fn share(t: f32) -> u32 {
    t.to_bits()
}

const W: usize = 16;
const H: usize = 16;
const A: u32 = 0xffff_0000;
const B: u32 = 0xff00_ff00;

fn picture(pixels: &[u32]) -> Vec<String> {
    pixels
        .chunks(W)
        .map(|row| {
            row.iter()
                .map(|p| match *p {
                    A => '.',
                    B => '#',
                    IRIS_RING => 'o',
                    _ => '?',
                })
                .collect()
        })
        .collect()
}

/// One composed frame as a picture: `.` is page A, `#` is page B and `o` is the
/// ring, one character a pixel.
fn frame(window: Window, ring: Option<i32>, shown: Shown) -> Vec<String> {
    let (a, b) = (vec![A; W * H], vec![B; W * H]);
    let (outside, inside) = match shown {
        Shown::Arriving => (&a, &b),
        Shown::Leaving => (&b, &a),
    };
    let mut pixels = vec![0u32; W * H];
    let mut dst = Surface { pixels: &mut pixels, stride: W, width: W, height: H };
    compose_window(&mut dst, outside, inside, window);
    if let Some(bleed) = ring {
        stroke_window(&mut dst, window.grown(bleed), 1, IRIS_RING);
    }
    picture(&pixels)
}

#[test]
fn the_window_shows_the_arriving_page_through_the_rect_it_is_given() {
    // The first frame of an open: page A everywhere but the row.
    let row = Window { x: 4, y: 6, w: 8, h: 4, r: 2 };
    assert_eq!(
        frame(row, None, Shown::Arriving),
        [
            "................",
            "................",
            "................",
            "................",
            "................",
            "................",
            ".....######.....",
            "....########....",
            "....########....",
            ".....######.....",
            "................",
            "................",
            "................",
            "................",
            "................",
            "................",
        ]
    );
    // The last frame of an open: the arriving page, whole.
    assert_eq!(frame(Window::default(), None, Shown::Arriving), vec![".".repeat(W); H]);
    assert_eq!(
        frame(Window::panel(W as u32, H as u32), None, Shown::Arriving),
        vec!["#".repeat(W); H]
    );
}

#[test]
fn a_frame_in_the_middle_is_the_new_page_inside_the_old_one_outside() {
    let row = Window { x: 4, y: 6, w: 8, h: 4, r: 2 };
    let whole = Window::panel(W as u32, H as u32);
    // Halfway there, every number is halfway there, radius included.
    assert_eq!(row.lerp(whole, share(0.5)), Window { x: 2, y: 3, w: 12, h: 10, r: 1 });
    // Drawn with a radius worth seeing: page B inside, page A outside, and the
    // corners cut into it.
    let half = Window { x: 2, y: 3, w: 12, h: 10, r: 4 };
    assert_eq!(
        frame(half, None, Shown::Arriving),
        [
            "................",
            "................",
            "................",
            "....########....",
            "...##########...",
            "...##########...",
            "..############..",
            "..############..",
            "..############..",
            "..############..",
            "...##########...",
            "...##########...",
            "....########....",
            "................",
            "................",
            "................",
        ]
    );
    // The reverse is the mirror.
    assert_eq!(
        frame(half, None, Shown::Leaving),
        frame(half, None, Shown::Arriving)
            .iter()
            .map(|row| row.replace('#', "@").replace('.', "#").replace('@', "."))
            .collect::<Vec<_>>()
    );
}

#[test]
fn the_ring_is_an_outline_around_the_window_and_nothing_else() {
    let row = Window { x: 5, y: 6, w: 6, h: 4, r: 1 };
    assert_eq!(
        frame(row, Some(1), Shown::Arriving),
        [
            "................",
            "................",
            "................",
            "................",
            "................",
            ".....oooooo.....",
            "....o######o....",
            "....o######o....",
            "....o######o....",
            "....o######o....",
            ".....oooooo.....",
            "................",
            "................",
            "................",
            "................",
            "................",
        ]
    );
}

#[test]
fn a_rows_run_is_inset_at_the_corners_and_clamped_to_the_panel() {
    let window = Window { x: 4, y: 4, w: 8, h: 8, r: 3 };
    assert_eq!(window_run(window, 3, W), None);
    assert_eq!(window_run(window, 12, W), None);
    assert_eq!(window_run(window, 7, W), Some((4, 12)));
    // The first row is the deepest into the corner, and the inset shrinks to
    // nothing by the time the rows clear it.
    let insets: Vec<usize> = (4..8).map(|y| window_run(window, y, W).unwrap().0 - 4).collect();
    assert_eq!(insets, [2, 1, 0, 0]);
    // Symmetric top to bottom.
    for y in 0..4 {
        assert_eq!(window_run(window, 4 + y, W), window_run(window, 11 - y, W));
    }
    // Past the edges of the panel the run is the panel, not more.
    let big = Window { x: -20, y: -20, w: 60, h: 60, r: 6 };
    assert_eq!(window_run(big, 0, W), Some((0, W)));
    // An empty window has no run at all.
    assert_eq!(window_run(Window::default(), 0, W), None);
}

#[test]
fn a_windows_numbers_never_overflow() {
    let huge = Window { x: i32::MIN, y: i32::MIN, w: i32::MAX, h: i32::MAX, r: 40 };
    assert_eq!(window_run(huge, -5, W), None);
    let far = Window { x: i32::MAX, y: 0, w: i32::MAX, h: 4, r: 0 };
    assert_eq!(window_run(far, 0, usize::MAX), Some((i32::MAX as usize, 4294967294)));
    let low = Window { x: i32::MIN, y: 0, w: 0, h: 0, r: 0 };
    let high = Window { x: i32::MAX, y: 0, w: 0, h: 0, r: 0 };
    assert_eq!(low.towards(high, share(1.0)), None);
    let none = Window::default();
    assert_eq!(none.lerp(high, share(1.0)).x, i32::MAX);
    assert_eq!(none.lerp(low, share(1.0)).x, i32::MIN);
    assert_eq!(low.lerp(none, share(0.0)).x, i32::MIN);
    assert!(travels((none, high), share(1.0)));
    assert!(!travels((none, low), share(1.0)));
    // A half rounds away from where the window began.
    let (a, b) = (Window { x: 0, ..low }, Window { x: 1, ..low });
    assert_eq!(a.lerp(b, share(0.5)).x, 1);
    assert_eq!(b.lerp(a, share(0.5)).x, 0);
}

#[test]
fn a_window_moves_by_single_precision() {
    let at = |a: i32, b: i32, t: f32| a + (((b - a) as f32) * t).round() as i32;
    let wide = |x: i32| Window { x, ..Window::default() };
    assert_eq!(wide(0).lerp(wide(3), share(0.833_333_3)).x, 3);
    let ends = [0, 1, -1, 3, 7, 239, 480, -480, 799, 16_777_217, 16_777_219, -33_554_435, 1 << 30];
    let shares = [
        0.0, 0.1, 0.25, 0.333_333_34, 0.5, 0.833_333_3, 0.999_999_94, 1.0, 1.000_000_1, -0.5, 1.5,
        1e-30, f32::MIN_POSITIVE, 1e-45, f32::NAN,
    ];
    for t in shares {
        for a in ends {
            for b in ends {
                let expected = i64::from(a) + i64::from((((b - a) as f32) * t).round() as i32);
                match wide(a).towards(wide(b), share(t)) {
                    Some(window) => assert_eq!(window.x, at(a, b, t), "{a} {b} {t}"),
                    None => assert!(i32::try_from(expected).is_err(), "{a} {b} {t}"),
                }
            }
        }
        for width in [0, 1, 480, 799, 16_777_219, u32::MAX] {
            assert_eq!(slide_offset(width, share(t), false), (t * width as f32).round() as usize);
        }
    }
    for t in [f32::INFINITY, f32::NEG_INFINITY, f32::MAX] {
        assert_eq!(wide(0).towards(wide(5), share(t)).unwrap().x, at(0, 5, t));
        assert_eq!(wide(0).towards(wide(0), share(t)).unwrap().x, 0);
    }
}

#[test]
fn roots_are_whole_and_never_too_large() {
    for (n, root) in [(0, 0), (1, 1), (3, 1), (4, 2), (15, 3), (16, 4), (143, 11), (144, 12)] {
        assert_eq!(isqrt(n), root);
    }
}

#[test]
fn a_colour_is_laid_over_a_pixel() {
    let mut p = Abgr::from_rgb(0x10, 0x20, 0x30);
    assert_eq!(p.0, 0xff30_2010);
    p.blend(0, 0, 0, 0);
    assert_eq!(p.0, 0xff30_2010);
    p.blend(1, 2, 3, 255);
    assert_eq!(p.0, 0xff03_0201);
    let mut half = Abgr(0xffff_ffff);
    half.blend(0, 64, 128, 128);
    assert_eq!(half.0, 0xffff_bf7f);
    assert_eq!(Abgr::default().0, 0);
    assert_eq!(swizzled(0x0012_3456), 0xff56_3412);
}

fn numbered(from: u32) -> Vec<u32> {
    (0..6).map(|n| from + n).collect()
}

#[test]
fn a_slide_pushes_the_old_page_out() {
    let (old, new) = (numbered(0), numbered(100));
    let frame = |from, dx, keep: &[(u32, u32)]| {
        let mut pixels = vec![9; 8];
        let mut dst = Surface { pixels: &mut pixels, stride: 4, width: 3, height: 2 };
        compose(&mut dst, &old, &new, from, dx, keep);
        pixels
    };
    assert_eq!(frame(Arrive::FromRight, 0, &[]), [0, 1, 2, 9, 3, 4, 5, 9]);
    assert_eq!(frame(Arrive::FromRight, 1, &[]), [1, 2, 100, 9, 4, 5, 103, 9]);
    assert_eq!(frame(Arrive::FromLeft, 1, &[]), [102, 0, 1, 9, 105, 3, 4, 9]);
    assert_eq!(frame(Arrive::FromLeft, 1, &[(0, 1)]), [100, 101, 102, 9, 105, 3, 4, 9]);
    for from in [Arrive::FromLeft, Arrive::FromRight] {
        assert_eq!(frame(from, 7, &[]), [100, 101, 102, 9, 103, 104, 105, 9]);
    }
    assert_eq!(slide_offset(480, share(0.5), false), 240);
    assert_eq!(slide_offset(480, 0, false), 0);
    assert_eq!(slide_offset(480, 0, true), 480);
}

#[test]
fn an_iris_ends_on_the_page_that_arrives() {
    let (a, b) = (vec![A; W * H], vec![B; W * H]);
    let row = Window { x: 4, y: 6, w: 8, h: 4, r: 2 };
    let whole = Window::panel(W as u32, H as u32);
    let frame = |shown, t, last| {
        let mut pixels = vec![0u32; W * H];
        let mut dst = Surface { pixels: &mut pixels, stride: W, width: W, height: H };
        iris_frame(&mut dst, &b, &a, (row, whole), shown, share(t), last);
        picture(&pixels)
    };
    assert_eq!(frame(Shown::Leaving, 1.0, true), vec!["#".repeat(W); H]);
    let first = frame(Shown::Arriving, 0.0, false);
    assert_eq!(first[7], "o...########...o");
    assert_eq!(first[6], "o....######....o");
    // Where the window was going does not matter to the last frame.
    let far = Window { x: i32::MIN, y: i32::MAX, w: i32::MAX, h: -1, r: i32::MAX };
    let mut pixels = vec![0u32; W * H];
    let mut dst = Surface { pixels: &mut pixels, stride: W, width: W, height: H };
    iris_frame(&mut dst, &b, &a, (far, row), Shown::Arriving, share(1.0), true);
    assert_eq!(picture(&pixels), vec!["#".repeat(W); H]);
    // A panel without columns has nothing to show.
    let mut dst = Surface { pixels: &mut [], stride: 0, width: 0, height: 3 };
    iris_frame(&mut dst, &[], &[], (row, whole), Shown::Arriving, share(0.5), false);
}

#[test]
fn only_what_was_drawn_anew_is_copied() {
    let ram = numbered(100);
    let mut pixels = vec![9; 8];
    let mut dst = Surface { pixels: &mut pixels, stride: 4, width: 3, height: 2 };
    let rects = [
        Rect { x: -1, y: 0, width: 2, height: 1 },
        Rect { x: 2, y: 1, width: 5, height: 5 },
        Rect { x: 9, y: 9, width: 1, height: 1 },
    ];
    copy_region(&mut dst, &ram, &rects);
    assert_eq!(pixels, [100, 101, 9, 9, 9, 9, 105, 9]);
    let mut dst = Surface { pixels: &mut pixels, stride: 4, width: 3, height: 2 };
    refresh_all(&mut dst, &ram);
    assert_eq!(pixels, [100, 101, 102, 9, 103, 104, 105, 9]);
    fill(&mut pixels, 7);
    assert_eq!(pixels, [7; 8]);
}

#[test]
fn a_transition_sums_what_its_frames_cost() {
    let mut cost = SlideCost::default();
    for (work, total) in [(3, 10), (8, 9), (5, 4)] {
        cost.count(FrameCost::of(work, total));
    }
    assert_eq!(cost, SlideCost { frames: 3, work_us: 16, wait_us: 8, max_us: 8 });
}
