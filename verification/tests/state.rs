use autofisher::config::Config;
use autofisher::state::{keycode, step, Action, FishingState, Point, StepCtx, SUBPIXELS};

const ORIGIN: Point = Point { x: 0, y: 0 };

/// An arbitrary clock reading (milliseconds) to start from.
const T0: u64 = 1_000_000;

fn cfg() -> Config {
    Config::default() // cast_keys=['1'], lure_key='3', 10s/30s/10s
}

fn ctx<'a>(now: u64, targets: &'a [Point], lure: Option<bool>, c: &'a Config) -> StepCtx<'a> {
    StepCtx {
        now,
        targets,
        center: ORIGIN,
        lure_present: lure,
        cfg: c,
    }
}

/// A point at whole pixel coordinates.
fn px(x: i64, y: i64) -> Point {
    Point { x: x * SUBPIXELS, y: y * SUBPIXELS }
}

fn secs(s: u64) -> u64 {
    s * 1000
}

#[test]
fn keycodes_map_digits() {
    assert_eq!(keycode('1'), Some(2));
    assert_eq!(keycode('3'), Some(4));
    assert_eq!(keycode('9'), Some(10));
    assert_eq!(keycode('0'), Some(11));
    assert_eq!(keycode('x'), None);
}

#[test]
fn initializing_holds_then_casts() {
    let c = cfg();
    let t0 = T0;
    let s = FishingState::Initializing { until: t0 + secs(10) };

    // before the deadline: no change, no actions
    let (s1, a1) = step(s, &ctx(t0, &[], None, &c));
    assert_eq!(s1, s);
    assert!(a1.is_empty());

    // after the deadline: casts and starts settling
    let after = t0 + secs(11);
    let (s2, a2) = step(s, &ctx(after, &[], None, &c));
    assert!(matches!(s2, FishingState::Settling { .. }));
    assert_eq!(a2, vec![Action::PressKey(2), Action::MoveTo(c.mouse_park())]);
}

#[test]
fn cast_uses_all_configured_keys() {
    let mut c = cfg();
    c.cast_keys = vec!['1', '2'];
    let t0 = T0;
    let (_s, a) = step(FishingState::Casting, &ctx(t0, &[], None, &c));
    assert_eq!(
        a,
        vec![
            Action::PressKey(2),
            Action::PressKey(3),
            Action::MoveTo(c.mouse_park())
        ]
    );
}

#[test]
fn lure_missing_applies_lure_then_casts() {
    let mut c = cfg();
    c.skip_lure = false;
    let t0 = T0;

    // lure reported absent → press lure key, wait
    let (s1, a1) = step(FishingState::Casting, &ctx(t0, &[], Some(false), &c));
    assert!(matches!(s1, FishingState::ApplyingLure { .. }));
    assert_eq!(a1, vec![Action::PressKey(4)]); // KEY_3

    // not yet done applying → hold
    if let FishingState::ApplyingLure { until } = s1 {
        let (s2, a2) = step(s1, &ctx(until - secs(1), &[], Some(false), &c));
        assert_eq!(s2, s1);
        assert!(a2.is_empty());

        // done applying → cast
        let (s3, a3) = step(s1, &ctx(until, &[], Some(false), &c));
        assert!(matches!(s3, FishingState::Settling { .. }));
        assert_eq!(a3, vec![Action::PressKey(2), Action::MoveTo(c.mouse_park())]);
    } else {
        unreachable!();
    }
}

#[test]
fn lure_present_skips_straight_to_cast() {
    let mut c = cfg();
    c.skip_lure = false;
    let t0 = T0;
    let (s, a) = step(FishingState::Casting, &ctx(t0, &[], Some(true), &c));
    assert!(matches!(s, FishingState::Settling { .. }));
    assert_eq!(a, vec![Action::PressKey(2), Action::MoveTo(c.mouse_park())]);
}

#[test]
fn settling_holds_then_searches_ignoring_targets() {
    let c = cfg();
    let t0 = T0;
    let s = FishingState::Settling { until: t0 + secs(3) };
    // a bobber on screen must NOT be reeled while the line is still settling
    let targets = [px(5, 5)];
    let (s1, a1) = step(s, &ctx(t0, &targets, None, &c));
    assert_eq!(s1, s);
    assert!(a1.is_empty(), "must not reel during the settle window");
    // after settling, the bite window opens
    let (s2, a2) = step(s, &ctx(t0 + secs(3), &targets, None, &c));
    assert!(matches!(s2, FishingState::Searching { .. }));
    assert!(a2.is_empty());
}

fn searching(recast_in_secs: u64, t0: u64) -> FishingState {
    FishingState::Searching {
        recast_at: t0 + secs(recast_in_secs),
        candidate: None,
    }
}

#[test]
fn searching_reels_nearest_only_after_it_is_stable() {
    let c = cfg();
    let t0 = T0;
    let s = searching(30, t0);
    // two bobbers; the closer one (3,4 dist 5) wins over (10,0) (center is ORIGIN)
    let targets = [px(10, 0), px(3, 4)];

    // first sighting: start confirming — do NOT reel yet
    let (s1, a1) = step(s, &ctx(t0, &targets, None, &c));
    assert!(matches!(
        s1,
        FishingState::Searching {
            candidate: Some(_),
            ..
        }
    ));
    assert!(a1.is_empty());

    // still there after the stability window → reel the nearest
    let later = t0 + c.stability() + 1;
    let (s2, a2) = step(s1, &ctx(later, &targets, None, &c));
    assert!(matches!(s2, FishingState::Looting { .. }));
    assert_eq!(
        a2,
        vec![Action::MoveTo(px(3, 4)), Action::RightClick]
    );
}

#[test]
fn searching_survives_brief_flicker() {
    let c = cfg();
    let t0 = T0;
    let targets = [px(3, 4)];

    let (s1, _) = step(searching(30, t0), &ctx(t0, &targets, None, &c));
    // a drop-out within the flicker grace must NOT reset the streak
    let (s2, _) = step(s1, &ctx(t0 + 100, &[], None, &c));
    assert!(matches!(
        s2,
        FishingState::Searching {
            candidate: Some(_),
            ..
        }
    ));
    // re-sighted past the stability window → reel
    let later = t0 + c.stability() + 1;
    let (s3, a3) = step(s2, &ctx(later, &targets, None, &c));
    assert!(matches!(s3, FishingState::Looting { .. }));
    assert_eq!(
        a3,
        vec![Action::MoveTo(px(3, 4)), Action::RightClick]
    );
}

#[test]
fn looting_pauses_then_recasts() {
    let c = cfg();
    let t0 = T0;
    let s = FishingState::Looting { until: t0 + c.post_catch() };
    // during the loot pause: hold, no actions
    let (s1, a1) = step(s, &ctx(t0, &[], None, &c));
    assert_eq!(s1, s);
    assert!(a1.is_empty());
    // after the pause: (re)cast
    let after = t0 + c.post_catch() + 1;
    let (s2, a2) = step(s, &ctx(after, &[], None, &c));
    assert!(matches!(s2, FishingState::Settling { .. }));
    assert_eq!(a2, vec![Action::PressKey(2), Action::MoveTo(c.mouse_park())]);
}

#[test]
fn searching_drops_transient_false_positive() {
    let c = cfg();
    let t0 = T0;
    let targets = [px(3, 4)];

    let (s1, _) = step(searching(30, t0), &ctx(t0, &targets, None, &c)); // one-frame blip
    // gone for longer than the flicker grace → streak dropped, never reels
    let after_grace = t0 + c.flicker_grace() + 1;
    let (s2, a2) = step(s1, &ctx(after_grace, &[], None, &c));
    assert!(matches!(
        s2,
        FishingState::Searching {
            candidate: None,
            ..
        }
    ));
    assert!(a2.is_empty());
}

#[test]
fn searching_recasts_on_timeout_only() {
    let c = cfg();
    let t0 = T0;
    let s = searching(30, t0);

    // no targets, before deadline → keep waiting
    let (s1, a1) = step(s, &ctx(t0, &[], None, &c));
    assert_eq!(s1, s);
    assert!(a1.is_empty());

    // no targets, deadline passed → recast
    let (s2, a2) = step(s, &ctx(t0 + secs(31), &[], None, &c));
    assert_eq!(s2, FishingState::Casting);
    assert!(a2.is_empty());
}
