use autofisher::capture::{pipeline, CaptureLoop, CaptureState};
use autofisher::config::{Config, DetectorBackend, LureSource, Roi};
use autofisher::controller::{observe_tick, TickReport};
use autofisher::detect::{lure_scale_plan, rect_center, rect_centers, template_fits, Rect, Resample};
use autofisher::frame::Frame;
use autofisher::nn::{head_layout, letterbox, roi_rect, HeadError, HeadLayout, Letterbox, PixelRect};
use autofisher::state::{
    step, step_checked, step_in_range, Action, Candidate, FishingState, Point, StepCtx, SUBPIXELS,
};

/// A point at whole pixel coordinates.
fn px(x: i64, y: i64) -> Point {
    Point { x: x * SUBPIXELS, y: y * SUBPIXELS }
}

fn ctx<'a>(now: u64, targets: &'a [Point], lure: Option<bool>, c: &'a Config) -> StepCtx<'a> {
    StepCtx {
        now,
        targets,
        center: Point { x: 0, y: 0 },
        lure_present: lure,
        cfg: c,
    }
}

#[test]
fn config_defaults_and_durations() {
    let c = Config::default();
    assert_eq!(c.initializing(), 10_000);
    assert_eq!(c.fishing_duration(), 30_000);
    assert_eq!(c.lure_cast(), 10_000);
    assert_eq!(c.settle(), 3_000);
    assert_eq!(c.post_catch(), 1_500);
    assert_eq!(c.stability(), 500);
    assert_eq!(c.flicker_grace(), 250);
    assert_eq!(c.mouse_park(), px(100, 500));
    assert_eq!(c.cast_keys, vec!['1']);
    assert_eq!(c.lure_key, '3');
    assert_eq!(c.model, "models/bobber_z4_10v3.xml");
    assert_eq!(c.lure_icon.as_deref(), Some("icons/lure_2560x1440.png"));
    assert_eq!(c.backend, DetectorBackend::Nn);
    assert_eq!(c.nn_model, "models/bobber.onnx");
    assert_eq!(c.nn_input_size, 960);
    assert_eq!(c.roi, Some(Roi { x: 0, y: 0, w: 1_000_000, h: 500_000 }));
}

#[test]
fn lure_source_follows_config() {
    let mut c = Config::default();
    match c.lure_source() {
        LureSource::Icon(p) => assert_eq!(p, "icons/lure_2560x1440.png"),
        other => panic!("expected the default icon, got {:?}", other),
    }
    c.lure_icon = None;
    assert!(matches!(c.lure_source(), LureSource::NoIcon));
    c.skip_lure = true;
    assert!(matches!(c.lure_source(), LureSource::Skipped));
}

#[test]
fn new_state_waits_out_the_grace_period() {
    let c = Config::default();
    assert_eq!(FishingState::new(5, &c), FishingState::Initializing { until: 10_005 });
}

#[test]
fn cast_skips_keys_that_are_not_digits() {
    let mut c = Config::default();
    c.cast_keys = vec!['x', '0', 'q'];
    let (s, a) = step(FishingState::Casting, &ctx(7, &[], None, &c));
    assert_eq!(s, FishingState::Settling { until: 3_007 });
    assert_eq!(a, vec![Action::PressKey(11), Action::MoveTo(px(100, 500))]);
}

#[test]
fn lure_key_that_is_not_a_digit_casts_directly() {
    let mut c = Config::default();
    c.lure_key = 'z';
    let (s, a) = step(FishingState::Casting, &ctx(0, &[], Some(false), &c));
    assert_eq!(s, FishingState::Settling { until: 3_000 });
    assert_eq!(a, vec![Action::PressKey(2), Action::MoveTo(px(100, 500))]);
}

#[test]
fn lure_unknown_never_applies_lure() {
    let c = Config::default();
    for lure in [None, Some(true)] {
        let (s, a) = step(FishingState::Casting, &ctx(0, &[], lure, &c));
        assert!(matches!(s, FishingState::Settling { .. }));
        assert!(!a.contains(&Action::PressKey(4)));
    }
}

#[test]
fn settling_opens_bite_window_with_deadline() {
    let c = Config::default();
    let (s, a) = step(FishingState::Settling { until: 100 }, &ctx(100, &[], None, &c));
    assert_eq!(s, FishingState::Searching { recast_at: 30_100, candidate: None });
    assert!(a.is_empty());
}

#[test]
fn new_sighting_is_not_reeled_on_first_tick() {
    let c = Config::default();
    let s = FishingState::Searching { recast_at: 99_999, candidate: None };
    let targets = [px(7, 7)];
    let (s1, a1) = step(s, &ctx(1_000, &targets, None, &c));
    assert_eq!(
        s1,
        FishingState::Searching {
            recast_at: 99_999,
            candidate: Some(Candidate { pos: px(7, 7), stable_since: 1_000, last_seen: 1_000 }),
        }
    );
    assert!(a1.is_empty());
}

#[test]
fn far_sighting_restarts_the_streak() {
    let c = Config::default();
    let old = Candidate { pos: Point { x: 0, y: 0 }, stable_since: 0, last_seen: 900 };
    let s = FishingState::Searching { recast_at: 99_999, candidate: Some(old) };
    // 41 px away: outside the 40 px stability radius → a fresh streak, no reel
    let targets = [px(41, 0)];
    let (s1, a1) = step(s, &ctx(1_000, &targets, None, &c));
    assert_eq!(
        s1,
        FishingState::Searching {
            recast_at: 99_999,
            candidate: Some(Candidate { pos: px(41, 0), stable_since: 1_000, last_seen: 1_000 }),
        }
    );
    assert!(a1.is_empty());
    // exactly 40 px away: the same bobber → the streak (started at 0) is stable → reel
    let targets = [px(40, 0)];
    let (s2, a2) = step(s, &ctx(1_000, &targets, None, &c));
    assert_eq!(s2, FishingState::Looting { until: 2_500 });
    assert_eq!(a2, vec![Action::MoveTo(px(40, 0)), Action::RightClick]);
}

#[test]
fn held_streak_reels_at_its_last_position() {
    let c = Config::default();
    let old = Candidate { pos: px(12, 3), stable_since: 0, last_seen: 900 };
    let s = FishingState::Searching { recast_at: 99_999, candidate: Some(old) };
    // no detection this tick, but within the flicker grace and past the stability window
    let (s1, a1) = step(s, &ctx(1_000, &[], None, &c));
    assert_eq!(s1, FishingState::Looting { until: 2_500 });
    assert_eq!(a1, vec![Action::MoveTo(px(12, 3)), Action::RightClick]);
}

#[test]
fn nearest_prefers_first_of_equally_near_targets() {
    let c = Config::default();
    let s = FishingState::Searching { recast_at: 99_999, candidate: None };
    let targets = [px(0, 5), px(5, 0), px(-3, -4)];
    let (s1, _) = step(s, &ctx(10, &targets, None, &c));
    match s1 {
        FishingState::Searching { candidate: Some(cand), .. } => assert_eq!(cand.pos, px(0, 5)),
        other => panic!("unexpected {:?}", other),
    }
}

#[test]
fn lapsed_streak_recasts_after_timeout() {
    let c = Config::default();
    let old = Candidate { pos: px(1, 1), stable_since: 100, last_seen: 100 };
    let s = FishingState::Searching { recast_at: 200, candidate: Some(old) };
    let (s1, a1) = step(s, &ctx(351, &[], None, &c));
    assert_eq!(s1, FishingState::Casting);
    assert!(a1.is_empty());
}

#[test]
fn tick_reports_missed_bites_and_casts() {
    let confirming = FishingState::Searching {
        recast_at: 5,
        candidate: Some(Candidate { pos: px(1, 2), stable_since: 0, last_seen: 0 }),
    };
    let idle = FishingState::Searching { recast_at: 5, candidate: None };
    assert_eq!(
        observe_tick(&confirming, &idle, &vec![]),
        TickReport { missed_bite: true, cast: false }
    );
    assert_eq!(
        observe_tick(&confirming, &FishingState::Casting, &vec![]),
        TickReport { missed_bite: true, cast: false }
    );
    assert_eq!(
        observe_tick(
            &confirming,
            &FishingState::Looting { until: 9 },
            &vec![Action::MoveTo(px(1, 2)), Action::RightClick]
        ),
        TickReport { missed_bite: false, cast: false }
    );
    assert_eq!(
        observe_tick(&confirming, &confirming, &vec![]),
        TickReport { missed_bite: false, cast: false }
    );
    assert_eq!(
        observe_tick(&FishingState::Casting, &FishingState::Settling { until: 3 }, &vec![Action::PressKey(2)]),
        TickReport { missed_bite: false, cast: true }
    );
    assert_eq!(
        observe_tick(&FishingState::Settling { until: 3 }, &FishingState::Settling { until: 3 }, &vec![]),
        TickReport { missed_bite: false, cast: false }
    );
}

#[test]
fn controller_sees_cast_from_step() {
    let c = Config::default();
    let prev = FishingState::Looting { until: 10 };
    let (next, actions) = step(prev, &ctx(10, &[], None, &c));
    assert!(observe_tick(&prev, &next, &actions).cast);
}

#[test]
fn pipeline_describes_the_capture() {
    assert_eq!(
        pipeline(7, 42, 10),
        "pipewiresrc fd=7 path=42 ! videoconvert ! videorate ! video/x-raw,format=BGR,framerate=10/1 ! appsink drop=true max-buffers=2 sync=false"
    );
    assert_eq!(
        pipeline(-1, 0, 4294967295),
        "pipewiresrc fd=-1 path=0 ! videoconvert ! videorate ! video/x-raw,format=BGR,framerate=4294967295/1 ! appsink drop=true max-buffers=2 sync=false"
    );
    assert_eq!(
        pipeline(i32::MIN, 1000, 60),
        "pipewiresrc fd=-2147483648 path=1000 ! videoconvert ! videorate ! video/x-raw,format=BGR,framerate=60/1 ! appsink drop=true max-buffers=2 sync=false"
    );
}

#[test]
fn capture_loop_logs_rising_edges_only() {
    let mut l = CaptureLoop::new();
    assert!(!l.note_targets(0));
    assert!(l.note_targets(2));
    assert!(!l.note_targets(3));
    assert!(!l.note_targets(0));
    assert!(l.note_targets(1));
}

#[test]
fn capture_loop_logs_lure_changes() {
    let mut l = CaptureLoop::new();
    assert!(l.record_lure(true));
    assert!(!l.record_lure(true));
    assert!(l.record_lure(false));
    assert_eq!(l.lure_present, Some(false));
}

#[test]
fn capture_snapshot_centers_the_frame() {
    let mut l = CaptureLoop::new();
    l.record_lure(true);
    let s: CaptureState = l.snapshot(1921, 1080, vec![px(1, 2)]);
    assert_eq!(s.center, Point { x: 960_500, y: 540_000 });
    assert_eq!(s.targets, vec![px(1, 2)]);
    assert_eq!((s.width, s.height, s.lure_present), (1921, 1080, Some(true)));
    let d = CaptureState::default();
    assert_eq!(d.center, Point { x: 0, y: 0 });
    assert!(d.targets.is_empty() && d.lure_present.is_none());
}

#[test]
fn frame_center_rounds_down() {
    let f = Frame::new(vec![0u8; 5 * 3 * 3], 5, 3);
    assert_eq!(f.center(), Point { x: 2_500, y: 1_500 });
    assert_eq!(Frame::new(vec![], 200, 200).center(), px(100, 100));
}

#[test]
fn rect_centers_are_box_middles() {
    assert_eq!(rect_center(&Rect { x: 10, y: 20, width: 30, height: 40 }), px(25, 40));
    assert_eq!(
        rect_center(&Rect { x: 10, y: 20, width: 31, height: 41 }),
        Point { x: 25_500, y: 40_500 }
    );
    assert_eq!(rect_center(&Rect { x: 0, y: 0, width: -3, height: -4 }), Point { x: -1_500, y: -2_000 });
    assert_eq!(
        rect_center(&Rect { x: i32::MAX, y: i32::MIN, width: i32::MAX, height: i32::MIN }),
        Point { x: 3_221_225_470_500, y: -3_221_225_472_000 }
    );
    let rects = vec![Rect { x: 0, y: 0, width: 2, height: 2 }, Rect { x: 4, y: 6, width: 8, height: 10 }];
    assert_eq!(rect_centers(&rects), vec![px(1, 1), px(8, 11)]);
    assert!(rect_centers(&vec![]).is_empty());
}

#[test]
fn lure_scale_plan_for_canonical_icon() {
    let plan = lure_scale_plan(34, 34);
    let sizes: Vec<u64> = plan.iter().map(|t| t.width).collect();
    assert_eq!(sizes, vec![36, 34, 32, 31, 29, 27, 26, 24, 22, 20, 19, 17]);
    assert_eq!(plan[0].resample, Resample::Linear);
    assert_eq!(plan[1].resample, Resample::Copy);
    assert!(plan[2..].iter().all(|t| t.resample == Resample::Area));
    assert!(plan.iter().all(|t| t.width == t.height));
}

#[test]
fn lure_scale_plan_skips_tiny_templates() {
    let plan = lure_scale_plan(6, 6);
    let sizes: Vec<u64> = plan.iter().map(|t| t.width).collect();
    assert_eq!(sizes, vec![6, 6, 6, 5, 5, 5, 5, 4, 4, 4]);
    assert!(plan[..3].iter().all(|t| t.resample == Resample::Copy));
    assert!(lure_scale_plan(3, 100).is_empty());
    assert!(lure_scale_plan(0, 0).is_empty());
}

#[test]
fn templates_must_fit_the_image() {
    assert!(template_fits(34, 34, 960, 540));
    assert!(template_fits(960, 540, 960, 540));
    assert!(!template_fits(961, 10, 960, 540));
    assert!(!template_fits(10, 541, 960, 540));
}

#[test]
fn roi_default_is_top_half() {
    let c = Config::default();
    assert_eq!(roi_rect(c.roi, 1920, 1080), PixelRect { x: 0, y: 0, w: 1920, h: 540 });
    assert_eq!(roi_rect(None, 1920, 1080), PixelRect { x: 0, y: 0, w: 1920, h: 1080 });
}

#[test]
fn roi_is_clamped_into_the_frame() {
    let roi = Some(Roi { x: 900_000, y: 900_000, w: 500_000, h: 500_000 });
    assert_eq!(roi_rect(roi, 100, 100), PixelRect { x: 90, y: 90, w: 10, h: 10 });
    let roi = Some(Roi { x: 1_000_000, y: 2_000_000, w: 0, h: 0 });
    assert_eq!(roi_rect(roi, 100, 50), PixelRect { x: 99, y: 49, w: 1, h: 1 });
    // 0.5 px rounds up
    let roi = Some(Roi { x: 5_000, y: 15_000, w: 5_000, h: 25_000 });
    assert_eq!(roi_rect(roi, 100, 100), PixelRect { x: 1, y: 2, w: 1, h: 3 });
}

#[test]
fn letterbox_pads_the_short_side() {
    assert_eq!(
        letterbox(960, 1920, 540),
        Letterbox { new_w: 960, new_h: 270, left: 0, top: 345, right: 0, bottom: 345 }
    );
    assert_eq!(
        letterbox(960, 960, 960),
        Letterbox { new_w: 960, new_h: 960, left: 0, top: 0, right: 0, bottom: 0 }
    );
    assert_eq!(
        letterbox(10, 3, 4),
        Letterbox { new_w: 8, new_h: 10, left: 1, top: 0, right: 1, bottom: 0 }
    );
    assert_eq!(
        letterbox(9, 4, 2),
        Letterbox { new_w: 9, new_h: 5, left: 0, top: 2, right: 0, bottom: 2 }
    );
}

#[test]
fn head_layout_reads_both_orientations() {
    assert_eq!(
        head_layout(&[1, 5, 18900]),
        Ok(HeadLayout { transposed: false, n_attr: 5, n_anchor: 18900 })
    );
    assert_eq!(
        head_layout(&[1, 18900, 6]),
        Ok(HeadLayout { transposed: true, n_attr: 6, n_anchor: 18900 })
    );
    assert_eq!(head_layout(&[1, 5, 18900]).unwrap().index(4, 7), (0, 4, 7));
    assert_eq!(head_layout(&[1, 18900, 6]).unwrap().index(4, 7), (0, 7, 4));
    assert_eq!(head_layout(&[2, 5, 100]), Err(HeadError::Batch(2)));
    assert_eq!(head_layout(&[1, 4, 100]), Err(HeadError::TooFewAttributes(4)));
    assert_eq!(head_layout(&[1, 5]), Err(HeadError::Rank(2)));
}

#[test]
fn checked_step_refuses_deadlines_past_the_clock() {
    let c = Config::default();
    let late = u64::MAX - 100;
    // a cast at `late` would set a deadline 3 s past the end of the clock
    assert!(!step_in_range(FishingState::Casting, &ctx(late, &[], None, &c)));
    assert!(step_checked(FishingState::Casting, &ctx(late, &[], None, &c)).is_none());
    // a waiting state before its deadline adds nothing and is fine
    let s = FishingState::Initializing { until: u64::MAX };
    assert_eq!(step_checked(s, &ctx(late, &[], None, &c)), Some((s, vec![])));
    // a settle time too large for milliseconds
    let mut big = Config::default();
    big.settle_secs = u64::MAX / 1000 + 1;
    assert!(step_checked(FishingState::Casting, &ctx(0, &[], None, &big)).is_none());
    // in range: the same result as `step`
    let (s1, a1) = step(FishingState::Casting, &ctx(5, &[], None, &c));
    assert_eq!(step_checked(FishingState::Casting, &ctx(5, &[], None, &c)), Some((s1, a1)));
    // a held streak whose flicker deadline is past the clock
    let cand = Candidate { pos: Point { x: 0, y: 0 }, stable_since: 0, last_seen: u64::MAX };
    let s = FishingState::Searching { recast_at: 0, candidate: Some(cand) };
    assert!(step_checked(s, &ctx(10, &[], None, &c)).is_none());
}

#[test]
fn distances_are_exact_at_the_coordinate_extremes() {
    let c = Config::default();
    let far = Point { x: i64::MAX, y: i64::MAX };
    let farther = Point { x: i64::MIN, y: i64::MIN };
    // squared distances near 2^127 from the center; the nearer one wins
    let s = FishingState::Searching { recast_at: 99_999, candidate: None };
    let (s1, _) = step(s, &ctx(10, &[farther, far], None, &c));
    match s1 {
        FishingState::Searching { candidate: Some(cand), .. } => assert_eq!(cand.pos, far),
        other => panic!("unexpected {:?}", other),
    }
    // a streak at one extreme is not the same bobber as a sighting at the other
    // (their squared distance exceeds a u128)
    let old = Candidate { pos: farther, stable_since: 0, last_seen: 5 };
    let s = FishingState::Searching { recast_at: 99_999, candidate: Some(old) };
    let (s2, a2) = step(s, &ctx(10, &[far], None, &c));
    assert_eq!(
        s2,
        FishingState::Searching {
            recast_at: 99_999,
            candidate: Some(Candidate { pos: far, stable_since: 10, last_seen: 10 }),
        }
    );
    assert!(a2.is_empty());
}

#[test]
fn stability_radius_is_sub_pixel() {
    let mut c = Config::default();
    c.stability_radius = 40_500; // 40.5 px
    let old = Candidate { pos: Point { x: 0, y: 0 }, stable_since: 0, last_seen: 900 };
    let s = FishingState::Searching { recast_at: 99_999, candidate: Some(old) };
    let (s1, a1) = step(s, &ctx(1_000, &[Point { x: 40_500, y: 0 }], None, &c));
    assert_eq!(s1, FishingState::Looting { until: 2_500 });
    assert_eq!(a1, vec![Action::MoveTo(Point { x: 40_500, y: 0 }), Action::RightClick]);
    let (s2, _) = step(s, &ctx(1_000, &[Point { x: 40_501, y: 0 }], None, &c));
    assert!(matches!(s2, FishingState::Searching { .. }));
}
