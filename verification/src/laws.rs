//! Properties of the fishing state machine that hold for every state, clock
//! reading, detection snapshot and configuration.
use crate::config::Config;
use crate::controller::{spec_confirming, spec_tick_report};
use crate::state::{
    cast_actions, key_presses, nearest_index, spec_dist2, spec_keycode, spec_nearest, spec_step,
    spec_update_candidate, Action, Candidate, FishingState, Point,
};
use vstd::prelude::*;

verus! {

/// Which states may follow which in one step: the loop runs
/// Initializing → (ApplyingLure →) Settling → Searching → Looting → … and a
/// Searching step may also fall back to Casting when the bite window expires.
pub open spec fn may_follow(prev: FishingState, next: FishingState) -> bool {
    match prev {
        FishingState::Initializing { .. } => next is Initializing || next is ApplyingLure
            || next is Settling,
        FishingState::ApplyingLure { .. } => next is ApplyingLure || next is Settling,
        FishingState::Casting => next is ApplyingLure || next is Settling,
        FishingState::Settling { .. } => next is Settling || next is Searching,
        FishingState::Searching { .. } => next is Searching || next is Looting || next is Casting,
        FishingState::Looting { .. } => next is Looting || next is ApplyingLure || next is Settling,
    }
}

/// The deadline a waiting state carries, if it is one of the waiting states.
pub open spec fn wait_deadline(s: FishingState) -> Option<u64> {
    match s {
        FishingState::Initializing { until } => Some(until),
        FishingState::ApplyingLure { until } => Some(until),
        FishingState::Settling { until } => Some(until),
        FishingState::Looting { until } => Some(until),
        _ => None,
    }
}

/// The nearest target is a closest one, and no earlier target is as close.
pub proof fn lemma_nearest_is_closest(ts: Seq<Point>, center: Point)
    requires
        ts.len() > 0,
    ensures
        0 <= nearest_index(ts, center) < ts.len(),
        forall|j: int|
            0 <= j < ts.len() ==> spec_dist2(ts[nearest_index(ts, center)], center)
                <= #[trigger] spec_dist2(ts[j], center),
        forall|j: int|
            0 <= j < nearest_index(ts, center) ==> spec_dist2(ts[nearest_index(ts, center)], center)
                < #[trigger] spec_dist2(ts[j], center),
    decreases ts.len(),
{
    if ts.len() > 1 {
        let init = ts.drop_last();
        lemma_nearest_is_closest(init, center);
        assert forall|j: int| 0 <= j < init.len() implies init[j] == ts[j] by {}
    }
}

/// Every step moves along the loop's edges; in particular the startup grace
/// period is never re-entered.
pub proof fn law_step_follows_loop(
    state: FishingState,
    now: u64,
    targets: Seq<Point>,
    center: Point,
    lure_present: Option<bool>,
    cfg: Config,
)
    ensures
        may_follow(state, spec_step(state, now, targets, center, lure_present, cfg).0),
        spec_step(state, now, targets, center, lure_present, cfg).0 is Initializing ==> state
            == spec_step(state, now, targets, center, lure_present, cfg).0,
{
}

/// A waiting state (startup grace, lure application, settling, loot pause) holds
/// unchanged and emits nothing until its deadline.
pub proof fn law_wait_until_deadline(
    state: FishingState,
    now: u64,
    targets: Seq<Point>,
    center: Point,
    lure_present: Option<bool>,
    cfg: Config,
)
    requires
        wait_deadline(state) is Some,
        now < wait_deadline(state)->0,
    ensures
        spec_step(state, now, targets, center, lure_present, cfg) == (
            state,
            Seq::<Action>::empty(),
        ),
{
}

/// While the line settles the water is ignored: the step does not depend on the
/// detections and never acts.
pub proof fn law_settling_ignores_targets(
    until: u64,
    now: u64,
    targets1: Seq<Point>,
    center1: Point,
    targets2: Seq<Point>,
    center2: Point,
    lure_present: Option<bool>,
    cfg: Config,
)
    ensures
        spec_step(FishingState::Settling { until }, now, targets1, center1, lure_present, cfg)
            == spec_step(FishingState::Settling { until }, now, targets2, center2, lure_present, cfg),
        spec_step(FishingState::Settling { until }, now, targets1, center1, lure_present, cfg).1
            == Seq::<Action>::empty(),
{
}

/// The bot reels only while searching, and only a streak that has lasted the
/// stability window: it moves to the streak's position, right-clicks, and pauses
/// to loot. With a bobber on screen the streak's position is the nearest bobber.
pub proof fn law_reel_only_when_stable(
    state: FishingState,
    now: u64,
    targets: Seq<Point>,
    center: Point,
    lure_present: Option<bool>,
    cfg: Config,
)
    requires
        spec_step(state, now, targets, center, lure_present, cfg).1.contains(Action::RightClick),
    ensures
        state is Searching,
        ({
            let c = spec_update_candidate(
                state->candidate,
                spec_nearest(targets, center),
                now,
                cfg,
            );
            &&& c is Some
            &&& now >= c->0.stable_since + cfg.stability_ms
            &&& spec_step(state, now, targets, center, lure_present, cfg) == (
                FishingState::Looting { until: (now + cfg.post_catch_ms) as u64 },
                seq![Action::MoveTo(c->0.pos), Action::RightClick],
            )
            &&& targets.len() > 0 ==> Some(c->0.pos) == spec_nearest(targets, center)
        }),
{
    let r = spec_step(state, now, targets, center, lure_present, cfg);
    lemma_cast_actions_end_with_park(cfg);
    let k = choose|i: int| 0 <= i < r.1.len() && r.1[i] == Action::RightClick;
    match state {
        FishingState::Searching { .. } => {},
        _ => {
            if r.1 == cast_actions(cfg) {
                lemma_key_presses_are_presses(cfg.cast_keys@);
                if k < r.1.len() - 1 {
                    assert(key_presses(cfg.cast_keys@)[k] == r.1[k]);
                }
            }
        },
    }
}

/// The lure key is pressed only when lure detection positively reports the buff
/// missing; the press is the step's only action and starts the lure wait.
pub proof fn law_lure_only_when_absent(
    state: FishingState,
    now: u64,
    targets: Seq<Point>,
    center: Point,
    lure_present: Option<bool>,
    cfg: Config,
)
    ensures
        ({
            let r = spec_step(state, now, targets, center, lure_present, cfg);
            (r.0 is ApplyingLure && !(state is ApplyingLure)) ==> {
                &&& lure_present == Some(false)
                &&& spec_keycode(cfg.lure_key) is Some
                &&& r.0 == (FishingState::ApplyingLure {
                    until: (now + cfg.lure_cast_ms()) as u64,
                })
                &&& r.1 == seq![Action::PressKey(spec_keycode(cfg.lure_key)->0)]
            }
        }),
        lure_present != Some(false) ==> !(spec_step(
            state,
            now,
            targets,
            center,
            lure_present,
            cfg,
        ).0 is ApplyingLure) || state is ApplyingLure,
{
}

/// Every cast lands in Settling: a step enters Settling (from another state)
/// exactly when it emits the cast sequence — the cast keys, then parking the
/// cursor.
pub proof fn law_cast_iff_enters_settling(
    state: FishingState,
    now: u64,
    targets: Seq<Point>,
    center: Point,
    lure_present: Option<bool>,
    cfg: Config,
)
    ensures
        ({
            let r = spec_step(state, now, targets, center, lure_present, cfg);
            (r.0 is Settling && !(state is Settling)) <==> r.1 == cast_actions(cfg)
        }),
{
    let r = spec_step(state, now, targets, center, lure_present, cfg);
    lemma_cast_actions_end_with_park(cfg);
    let ca = cast_actions(cfg);
    if r.1 == ca {
        // the cast sequence is non-empty and ends by parking the cursor, which no
        // other step's actions do
        assert(r.1.len() > 0);
        assert(r.1.last() == Action::MoveTo(cfg.park_point()));
    }
}

/// A recast is scheduled only when the bite window has expired with no bobber
/// streak alive.
pub proof fn law_recast_only_on_timeout(
    state: FishingState,
    now: u64,
    targets: Seq<Point>,
    center: Point,
    lure_present: Option<bool>,
    cfg: Config,
)
    requires
        spec_step(state, now, targets, center, lure_present, cfg).0 is Casting,
    ensures
        state is Searching,
        now >= state->recast_at,
        spec_update_candidate(state->candidate, spec_nearest(targets, center), now, cfg) is None,
        spec_step(state, now, targets, center, lure_present, cfg).1 == Seq::<Action>::empty(),
{
}

/// A detection drop-out within the flicker grace keeps the streak (not yet stable
/// → keep confirming, no action); a longer one drops it without reeling.
pub proof fn law_flicker_tolerance(
    recast_at: u64,
    c: Candidate,
    now: u64,
    center: Point,
    lure_present: Option<bool>,
    cfg: Config,
)
    ensures
        ({
            let s = FishingState::Searching { recast_at, candidate: Some(c) };
            let r = spec_step(s, now, Seq::empty(), center, lure_present, cfg);
            &&& (now <= c.last_seen + cfg.flicker_ms && now < c.stable_since + cfg.stability_ms)
                ==> r == (s, Seq::<Action>::empty())
            &&& now > c.last_seen + cfg.flicker_ms ==> {
                &&& r.1 == Seq::<Action>::empty()
                &&& (r.0 == FishingState::Casting || r.0 == (FishingState::Searching {
                    recast_at,
                    candidate: None,
                }))
            }
        }),
{
}

/// A sighting that starts a new streak is never reeled on the tick it appears
/// (transient false positives are filtered), as long as the stability window is
/// not zero.
pub proof fn law_new_sighting_not_reeled(
    recast_at: u64,
    candidate: Option<Candidate>,
    now: u64,
    targets: Seq<Point>,
    center: Point,
    lure_present: Option<bool>,
    cfg: Config,
)
    requires
        cfg.stability_ms > 0,
        targets.len() > 0,
        candidate is None || spec_dist2(candidate->0.pos, spec_nearest(targets, center)->0)
            > cfg.stability_radius * cfg.stability_radius,
    ensures
        spec_step(
            FishingState::Searching { recast_at, candidate },
            now,
            targets,
            center,
            lure_present,
            cfg,
        ) == (
            FishingState::Searching {
                recast_at,
                candidate: Some(
                    Candidate {
                        pos: spec_nearest(targets, center)->0,
                        stable_since: now,
                        last_seen: now,
                    },
                ),
            },
            Seq::<Action>::empty(),
        ),
{
}

/// A streak's times stay ordered — start ≤ last sighting ≤ now — across every
/// update; a sighting always yields a streak at that sighting, seen now; and a
/// streak lapses only on a tick without a sighting.
pub proof fn law_streak_update(
    candidate: Option<Candidate>,
    nearest: Option<Point>,
    now: u64,
    cfg: Config,
)
    requires
        candidate is Some ==> candidate->0.stable_since <= candidate->0.last_seen <= now,
    ensures
        ({
            let r = spec_update_candidate(candidate, nearest, now, cfg);
            &&& r is Some ==> r->0.stable_since <= r->0.last_seen <= now
            &&& r is None ==> nearest is None
            &&& nearest is Some ==> r is Some && r->0.pos == nearest->0 && r->0.last_seen == now
        }),
{
}

/// The controller's per-tick report agrees with the step: it flags a cast exactly
/// when the step emitted the cast sequence, and a missed bite exactly when a streak
/// that was being confirmed lapsed without support from the detections.
pub proof fn law_tick_report(
    state: FishingState,
    now: u64,
    targets: Seq<Point>,
    center: Point,
    lure_present: Option<bool>,
    cfg: Config,
)
    ensures
        ({
            let r = spec_step(state, now, targets, center, lure_present, cfg);
            let rep = spec_tick_report(state, r.0, r.1);
            &&& rep.cast <==> r.1 == cast_actions(cfg)
            &&& rep.missed_bite <==> (spec_confirming(state) && spec_update_candidate(
                state->candidate,
                spec_nearest(targets, center),
                now,
                cfg,
            ) is None)
        }),
{
    law_cast_iff_enters_settling(state, now, targets, center, lure_present, cfg);
    let r = spec_step(state, now, targets, center, lure_present, cfg);
    if state is Searching {
        let c = spec_update_candidate(state->candidate, spec_nearest(targets, center), now, cfg);
        if c is Some && now >= c->0.stable_since + cfg.stability_ms {
            assert(r.1[1] == Action::RightClick);
        }
    }
}

/// The cast sequence is the configured key presses followed by parking the cursor.
proof fn lemma_cast_actions_end_with_park(cfg: Config)
    ensures
        cast_actions(cfg).len() > 0,
        cast_actions(cfg).last() == Action::MoveTo(cfg.park_point()),
        cast_actions(cfg).drop_last() == key_presses(cfg.cast_keys@),
{
    assert(cast_actions(cfg).drop_last() =~= key_presses(cfg.cast_keys@));
}

/// Key presses contain nothing but `PressKey` actions.
proof fn lemma_key_presses_are_presses(keys: Seq<char>)
    ensures
        forall|i: int|
            0 <= i < key_presses(keys).len() ==> #[trigger] key_presses(keys)[i] is PressKey,
    decreases keys.len(),
{
    if keys.len() > 0 {
        lemma_key_presses_are_presses(keys.drop_last());
    }
}

// ---------------------------------------------------------------------------
// Each transition in terms of the configuration and the detections
// ---------------------------------------------------------------------------

/// Squared Euclidean distance, written out.
pub open spec fn dist_sq(a: Point, b: Point) -> int {
    (a.x - b.x) * (a.x - b.x) + (a.y - b.y) * (a.y - b.y)
}

/// `p` is one of `targets`, and no target is closer to `center`.
pub open spec fn is_closest(p: Point, targets: Seq<Point>, center: Point) -> bool {
    &&& targets.contains(p)
    &&& forall|j: int| 0 <= j < targets.len() ==> dist_sq(p, center) <= #[trigger] dist_sq(targets[j], center)
}

/// The evdev code of a digit key (`KEY_1` = 2 … `KEY_9` = 10, `KEY_0` = 11).
pub open spec fn digit_key_code(c: char) -> Option<u16> {
    if '0' < c && c <= '9' {
        Some((c as int - '0' as int + 1) as u16)
    } else if c == '0' {
        Some(11u16)
    } else {
        None
    }
}

/// One key press per digit key of `keys`, in order (other keys are ignored).
pub open spec fn digit_presses(keys: Seq<char>) -> Seq<Action>
    decreases keys.len(),
{
    if keys.len() == 0 {
        Seq::empty()
    } else {
        match digit_key_code(keys.last()) {
            Some(k) => digit_presses(keys.drop_last()).push(Action::PressKey(k)),
            None => digit_presses(keys.drop_last()),
        }
    }
}

/// A cast: every configured digit cast key pressed in order, then the cursor
/// parked at `mouse_park`.
pub open spec fn is_cast_of(actions: Seq<Action>, cfg: Config) -> bool {
    actions == digit_presses(cfg.cast_keys@).push(Action::MoveTo(cfg.mouse_park))
}

/// The steps that cast: the startup grace or the loot pause is over, or the
/// machine is ready to (re)cast.
pub open spec fn casts_now(state: FishingState, now: u64) -> bool {
    match state {
        FishingState::Initializing { until } => now >= until,
        FishingState::Looting { until } => now >= until,
        FishingState::Casting => true,
        _ => false,
    }
}

proof fn lemma_digit_key_code(c: char)
    ensures
        digit_key_code(c) == spec_keycode(c),
{
}

proof fn lemma_digit_presses(keys: Seq<char>)
    ensures
        digit_presses(keys) == key_presses(keys),
    decreases keys.len(),
{
    if keys.len() > 0 {
        lemma_digit_presses(keys.drop_last());
        lemma_digit_key_code(keys.last());
    }
}

/// Every cast — the first after the startup grace, the one after a catch's loot
/// pause, and a recast — first re-applies the lure when detection reports it
/// missing: it presses only the lure key and waits `lure_cast_secs`. Otherwise it
/// casts: the cast keys, then parking the cursor, and settles for `settle_secs`.
pub proof fn law_cast_applies_missing_lure(
    state: FishingState,
    now: u64,
    targets: Seq<Point>,
    center: Point,
    lure_present: Option<bool>,
    cfg: Config,
)
    requires
        casts_now(state, now),
        now + cfg.lure_cast_secs * 1000 <= u64::MAX,
        now + cfg.settle_secs * 1000 <= u64::MAX,
    ensures
        ({
            let r = spec_step(state, now, targets, center, lure_present, cfg);
            &&& (lure_present == Some(false) && digit_key_code(cfg.lure_key) is Some) ==> r == (
                FishingState::ApplyingLure { until: (now + cfg.lure_cast_secs * 1000) as u64 },
                seq![Action::PressKey(digit_key_code(cfg.lure_key)->0)],
            )
            &&& !(lure_present == Some(false) && digit_key_code(cfg.lure_key) is Some) ==> {
                &&& r.0 == (FishingState::Settling { until: (now + cfg.settle_secs * 1000) as u64 })
                &&& is_cast_of(r.1, cfg)
            }
        }),
{
    lemma_digit_key_code(cfg.lure_key);
    lemma_digit_presses(cfg.cast_keys@);
}

/// Once the lure has had `lure_cast_secs` to apply, the step casts and settles.
pub proof fn law_lure_wait_then_cast(
    until: u64,
    now: u64,
    targets: Seq<Point>,
    center: Point,
    lure_present: Option<bool>,
    cfg: Config,
)
    requires
        now >= until,
        now + cfg.settle_secs * 1000 <= u64::MAX,
    ensures
        ({
            let r = spec_step(FishingState::ApplyingLure { until }, now, targets, center, lure_present, cfg);
            &&& r.0 == (FishingState::Settling { until: (now + cfg.settle_secs * 1000) as u64 })
            &&& is_cast_of(r.1, cfg)
        }),
{
    lemma_digit_presses(cfg.cast_keys@);
}

/// Once the line has settled, the bite window of `fishing_duration_secs` opens
/// with no streak, and nothing is done.
pub proof fn law_settled_opens_bite_window(
    until: u64,
    now: u64,
    targets: Seq<Point>,
    center: Point,
    lure_present: Option<bool>,
    cfg: Config,
)
    requires
        now >= until,
        now + cfg.fishing_duration_secs * 1000 <= u64::MAX,
    ensures
        spec_step(FishingState::Settling { until }, now, targets, center, lure_present, cfg) == (
            FishingState::Searching {
                recast_at: (now + cfg.fishing_duration_secs * 1000) as u64,
                candidate: None,
            },
            Seq::<Action>::empty(),
        ),
{
}

/// A sighting within `stability_radius` of the streak continues it: the streak
/// keeps its start, moves to a target closest to the center and is seen now; the
/// bot reels there (and pauses `post_catch_ms` to loot) exactly when the streak
/// has lasted `stability_ms`. So a bobber sighted on every tick is reeled once
/// `stability_ms` have passed since it first appeared.
pub proof fn law_sighting_near_streak_extends_it(
    recast_at: u64,
    c: Candidate,
    now: u64,
    targets: Seq<Point>,
    center: Point,
    lure_present: Option<bool>,
    cfg: Config,
)
    requires
        targets.len() > 0,
        forall|j: int|
            0 <= j < targets.len() ==> #[trigger] dist_sq(c.pos, targets[j]) <= cfg.stability_radius
                * cfg.stability_radius,
        now + cfg.post_catch_ms <= u64::MAX,
    ensures
        exists|p: Point|
            {
                &&& is_closest(p, targets, center)
                &&& #[trigger] spec_step(
                    FishingState::Searching { recast_at, candidate: Some(c) },
                    now,
                    targets,
                    center,
                    lure_present,
                    cfg,
                ) == if now >= c.stable_since + cfg.stability_ms {
                    (
                        FishingState::Looting { until: (now + cfg.post_catch_ms) as u64 },
                        seq![Action::MoveTo(p), Action::RightClick],
                    )
                } else {
                    (
                        FishingState::Searching {
                            recast_at,
                            candidate: Some(
                                Candidate { pos: p, stable_since: c.stable_since, last_seen: now },
                            ),
                        },
                        Seq::<Action>::empty(),
                    )
                }
            },
{
    lemma_nearest_is_closest(targets, center);
    let i = nearest_index(targets, center);
    let p = targets[i];
    assert(dist_sq(c.pos, targets[i]) <= cfg.stability_radius * cfg.stability_radius);
    assert(targets.contains(p));
    assert forall|j: int| 0 <= j < targets.len() implies dist_sq(p, center) <= #[trigger] dist_sq(
        targets[j],
        center,
    ) by {
        assert(spec_dist2(targets[j], center) == dist_sq(targets[j], center));
    }
    assert(is_closest(p, targets, center));
}

/// A sighting farther than `stability_radius` from the streak (or with no
/// streak) starts a fresh streak at a target closest to the center, begun and
/// seen now; it is reeled on this tick only if `stability_ms` is zero.
pub proof fn law_far_sighting_starts_streak(
    recast_at: u64,
    candidate: Option<Candidate>,
    now: u64,
    targets: Seq<Point>,
    center: Point,
    lure_present: Option<bool>,
    cfg: Config,
)
    requires
        targets.len() > 0,
        candidate is Some ==> forall|j: int|
            0 <= j < targets.len() ==> #[trigger] dist_sq(candidate->0.pos, targets[j])
                > cfg.stability_radius * cfg.stability_radius,
        now + cfg.post_catch_ms <= u64::MAX,
    ensures
        exists|p: Point|
            {
                &&& is_closest(p, targets, center)
                &&& #[trigger] spec_step(
                    FishingState::Searching { recast_at, candidate },
                    now,
                    targets,
                    center,
                    lure_present,
                    cfg,
                ) == if cfg.stability_ms == 0 {
                    (
                        FishingState::Looting { until: (now + cfg.post_catch_ms) as u64 },
                        seq![Action::MoveTo(p), Action::RightClick],
                    )
                } else {
                    (
                        FishingState::Searching {
                            recast_at,
                            candidate: Some(Candidate { pos: p, stable_since: now, last_seen: now }),
                        },
                        Seq::<Action>::empty(),
                    )
                }
            },
{
    lemma_nearest_is_closest(targets, center);
    let i = nearest_index(targets, center);
    let p = targets[i];
    if candidate is Some {
        assert(dist_sq(candidate->0.pos, targets[i]) > cfg.stability_radius * cfg.stability_radius);
    }
    assert(targets.contains(p));
    assert forall|j: int| 0 <= j < targets.len() implies dist_sq(p, center) <= #[trigger] dist_sq(
        targets[j],
        center,
    ) by {
        assert(spec_dist2(targets[j], center) == dist_sq(targets[j], center));
    }
    assert(is_closest(p, targets, center));
}

/// With nothing sighted, a streak last seen within `flicker_ms` is held as it
/// is (and reeled at its position once it has lasted `stability_ms`); otherwise
/// it is dropped, and the bot recasts once the bite window (`recast_at`) is over.
pub proof fn law_no_sighting(
    recast_at: u64,
    candidate: Option<Candidate>,
    now: u64,
    center: Point,
    lure_present: Option<bool>,
    cfg: Config,
)
    requires
        now + cfg.post_catch_ms <= u64::MAX,
    ensures
        ({
            let r = spec_step(
                FishingState::Searching { recast_at, candidate },
                now,
                Seq::empty(),
                center,
                lure_present,
                cfg,
            );
            if candidate is Some && now <= candidate->0.last_seen + cfg.flicker_ms {
                let c = candidate->0;
                r == if now >= c.stable_since + cfg.stability_ms {
                    (
                        FishingState::Looting { until: (now + cfg.post_catch_ms) as u64 },
                        seq![Action::MoveTo(c.pos), Action::RightClick],
                    )
                } else {
                    (FishingState::Searching { recast_at, candidate: Some(c) }, Seq::<Action>::empty())
                }
            } else {
                r == if now >= recast_at {
                    (FishingState::Casting, Seq::<Action>::empty())
                } else {
                    (FishingState::Searching { recast_at, candidate: None }, Seq::<Action>::empty())
                }
            }
        }),
{
}

} // verus!
