//! The fishing loop as a pure, typed state machine.
//!
//! [`step`] takes the current [`FishingState`] plus a [`StepCtx`] snapshot and
//! returns the next state and the [`Action`]s the shell should perform. It does no
//! I/O, reads no clock, and never sleeps — timing is encoded as deadlines carried
//! in the state (millisecond clock readings) — so every transition is
//! deterministic and is specified exactly by [`spec_step`].
use crate::config::Config;
use vstd::prelude::*;

verus! {

/// A point in frame coordinates, in thousandths of a pixel (so a box or frame
/// center, which can fall on a half pixel, is exact). Thanks to the RemoteDesktop
/// portal these are also the pointer-injection coordinates: no calibration.
#[derive(Debug, Clone, Copy, PartialEq, Eq, Structural)]
pub struct Point {
    pub x: i64,
    pub y: i64,
}

/// Thousandths of a pixel per pixel: the unit of [`Point`] coordinates and of
/// `Config::stability_radius`.
pub const SUBPIXELS: i64 = 1000;

impl Default for Point {
    fn default() -> (p: Self)
        ensures
            p == (Point { x: 0, y: 0 }),
    {
        Point { x: 0, y: 0 }
    }
}

/// A side effect the state machine asks the shell to perform.
#[derive(Debug, Clone, Copy, PartialEq, Eq, Structural)]
pub enum Action {
    /// Press and release a key, given as a Linux evdev keycode.
    PressKey(u16),
    /// Move the pointer to a frame coordinate.
    MoveTo(Point),
    /// Right-click at the current pointer position (reels in the bobber).
    RightClick,
}

/// A bobber being confirmed before the bot reels: it must persist near `pos` for
/// `Config::stability_ms`, tolerating brief detection flicker (`Config::flicker_ms`).
#[derive(Debug, Clone, Copy, PartialEq, Eq, Structural)]
pub struct Candidate {
    pub pos: Point,
    /// When this detection streak began (ms clock reading).
    pub stable_since: u64,
    /// Most recent sighting (drives the flicker tolerance).
    pub last_seen: u64,
}

/// The fishing loop. Associated data makes invalid states unrepresentable — e.g. a
/// recast deadline exists only while `Searching`. Deadlines are ms clock readings.
#[derive(Debug, Clone, Copy, PartialEq, Eq, Structural)]
pub enum FishingState {
    /// Startup grace period so the user can focus the game.
    Initializing { until: u64 },
    /// Waiting for the lure to finish applying before casting.
    ApplyingLure { until: u64 },
    /// Ready to (re)cast on the next step.
    Casting,
    /// Line just cast — ignore the water until `until`.
    Settling { until: u64 },
    /// Line is out; confirm a stable bobber then reel, or recast once `recast_at`
    /// passes. `candidate` is the bobber currently being confirmed.
    Searching { recast_at: u64, candidate: Option<Candidate> },
    /// A fish was just reeled in — pause briefly so the catch/loot resolves.
    Looting { until: u64 },
}

/// Everything a single [`step`] needs — an immutable snapshot of the world.
pub struct StepCtx<'a> {
    /// The current clock reading (milliseconds).
    pub now: u64,
    /// Detected bobber centers, in frame coordinates.
    pub targets: &'a [Point],
    /// Frame center; the nearest bobber to it is preferred.
    pub center: Point,
    /// `Some(true/false)` when lure detection ran, `None` when it is disabled.
    pub lure_present: Option<bool>,
    pub cfg: &'a Config,
}

// ---------------------------------------------------------------------------
// Specification
// ---------------------------------------------------------------------------

/// The evdev keycode of a digit key: `KEY_1` = 2 … `KEY_9` = 10, `KEY_0` = 11.
pub open spec fn spec_keycode(c: char) -> Option<u16> {
    if '1' <= c && c <= '9' {
        Some((c as int - '1' as int + 2) as u16)
    } else if c == '0' {
        Some(11u16)
    } else {
        None
    }
}

/// Squared Euclidean distance between two points.
pub open spec fn spec_dist2(a: Point, b: Point) -> int {
    (a.x - b.x) * (a.x - b.x) + (a.y - b.y) * (a.y - b.y)
}

/// Index of the first target with the least distance to `center`.
pub open spec fn nearest_index(ts: Seq<Point>, center: Point) -> int
    decreases ts.len(),
{
    if ts.len() <= 1 {
        0
    } else {
        let k = nearest_index(ts.drop_last(), center);
        if spec_dist2(ts.last(), center) < spec_dist2(ts[k], center) {
            ts.len() - 1
        } else {
            k
        }
    }
}

/// The nearest target to `center` (the first one among equally near targets).
pub open spec fn spec_nearest(ts: Seq<Point>, center: Point) -> Option<Point> {
    if ts.len() == 0 {
        None
    } else {
        Some(ts[nearest_index(ts, center)])
    }
}

/// The key presses for a list of configured keys: one `PressKey` per digit key,
/// in order; keys that are not digits are skipped.
pub open spec fn key_presses(keys: Seq<char>) -> Seq<Action>
    decreases keys.len(),
{
    if keys.len() == 0 {
        Seq::empty()
    } else {
        let rest = key_presses(keys.drop_last());
        match spec_keycode(keys.last()) {
            Some(k) => rest.push(Action::PressKey(k)),
            None => rest,
        }
    }
}

/// The actions of a cast: the cast keys, then parking the cursor.
pub open spec fn cast_actions(cfg: Config) -> Seq<Action> {
    key_presses(cfg.cast_keys@).push(Action::MoveTo(cfg.park_point()))
}

/// Cast: press the cast keys, park the cursor, settle before watching the water.
pub open spec fn spec_cast_now(now: u64, cfg: Config) -> (FishingState, Seq<Action>) {
    (FishingState::Settling { until: (now + cfg.settle_ms()) as u64 }, cast_actions(cfg))
}

/// Whether a cast must first (re)apply the lure: only when detection positively
/// reports the lure absent and the lure key is a digit key.
pub open spec fn needs_lure(lure_present: Option<bool>, cfg: Config) -> bool {
    lure_present == Some(false) && spec_keycode(cfg.lure_key) is Some
}

/// Apply a lure first if detection says it's missing, otherwise cast straight away.
pub open spec fn spec_begin_cast(now: u64, lure_present: Option<bool>, cfg: Config) -> (
    FishingState,
    Seq<Action>,
) {
    if needs_lure(lure_present, cfg) {
        (
            FishingState::ApplyingLure { until: (now + cfg.lure_cast_ms()) as u64 },
            seq![Action::PressKey(spec_keycode(cfg.lure_key)->0)],
        )
    } else {
        spec_cast_now(now, cfg)
    }
}

/// Advance the confirmation streak: extend it on a sighting within
/// `stability_radius` of the streak (keeping its start), start a fresh streak on
/// any other sighting, and keep it across a drop-out only within the flicker grace.
pub open spec fn spec_update_candidate(
    candidate: Option<Candidate>,
    nearest: Option<Point>,
    now: u64,
    cfg: Config,
) -> Option<Candidate> {
    match nearest {
        Some(p) => if candidate is Some && spec_dist2(candidate->0.pos, p) <= cfg.stability_radius
            * cfg.stability_radius {
            Some(Candidate { pos: p, stable_since: candidate->0.stable_since, last_seen: now })
        } else {
            Some(Candidate { pos: p, stable_since: now, last_seen: now })
        },
        None => if candidate is Some && now <= candidate->0.last_seen + cfg.flicker_ms {
            candidate
        } else {
            None
        },
    }
}

/// One tick of the fishing loop: the next state and the actions to perform.
pub open spec fn spec_step(
    state: FishingState,
    now: u64,
    targets: Seq<Point>,
    center: Point,
    lure_present: Option<bool>,
    cfg: Config,
) -> (FishingState, Seq<Action>) {
    match state {
        FishingState::Initializing { until } => if now >= until {
            spec_begin_cast(now, lure_present, cfg)
        } else {
            (state, Seq::empty())
        },
        FishingState::ApplyingLure { until } => if now >= until {
            spec_cast_now(now, cfg)
        } else {
            (state, Seq::empty())
        },
        FishingState::Casting => spec_begin_cast(now, lure_present, cfg),
        FishingState::Settling { until } => if now >= until {
            (
                FishingState::Searching {
                    recast_at: (now + cfg.fishing_duration_ms()) as u64,
                    candidate: None,
                },
                Seq::empty(),
            )
        } else {
            (state, Seq::empty())
        },
        FishingState::Searching { recast_at, candidate } => {
            match spec_update_candidate(candidate, spec_nearest(targets, center), now, cfg) {
                Some(c) => if now >= c.stable_since + cfg.stability_ms {
                    (
                        FishingState::Looting { until: (now + cfg.post_catch_ms) as u64 },
                        seq![Action::MoveTo(c.pos), Action::RightClick],
                    )
                } else {
                    (FishingState::Searching { recast_at, candidate: Some(c) }, Seq::empty())
                },
                None => if now >= recast_at {
                    (FishingState::Casting, Seq::empty())
                } else {
                    (FishingState::Searching { recast_at, candidate: None }, Seq::empty())
                },
            }
        },
        FishingState::Looting { until } => if now >= until {
            spec_begin_cast(now, lure_present, cfg)
        } else {
            (state, Seq::empty())
        },
    }
}

/// The deadline arithmetic of a cast stays within the millisecond clock.
pub open spec fn begin_cast_fits(now: u64, lure_present: Option<bool>, cfg: Config) -> bool {
    if needs_lure(lure_present, cfg) {
        now + cfg.lure_cast_ms() <= u64::MAX
    } else {
        now + cfg.settle_ms() <= u64::MAX
    }
}

/// Every clock sum that [`step`] computes on this input stays within `u64`
/// (adding a duration to a clock reading past its range panics).
pub open spec fn step_fits(
    state: FishingState,
    now: u64,
    targets: Seq<Point>,
    center: Point,
    lure_present: Option<bool>,
    cfg: Config,
) -> bool {
    match state {
        FishingState::Initializing { until } => now >= until ==> begin_cast_fits(
            now,
            lure_present,
            cfg,
        ),
        FishingState::ApplyingLure { until } => now >= until ==> now + cfg.settle_ms() <= u64::MAX,
        FishingState::Casting => begin_cast_fits(now, lure_present, cfg),
        FishingState::Settling { until } => now >= until ==> now + cfg.fishing_duration_ms()
            <= u64::MAX,
        FishingState::Searching { recast_at, candidate } => {
            let near = spec_nearest(targets, center);
            &&& (candidate is Some && near is None) ==> candidate->0.last_seen + cfg.flicker_ms
                <= u64::MAX
            &&& match spec_update_candidate(candidate, near, now, cfg) {
                Some(c) => {
                    &&& c.stable_since + cfg.stability_ms <= u64::MAX
                    &&& now >= c.stable_since + cfg.stability_ms ==> now + cfg.post_catch_ms
                        <= u64::MAX
                },
                None => true,
            }
        },
        FishingState::Looting { until } => now >= until ==> begin_cast_fits(
            now,
            lure_present,
            cfg,
        ),
    }
}

/// The spec of a step on an exec context.
pub open spec fn step_of(state: FishingState, ctx: &StepCtx) -> (FishingState, Seq<Action>) {
    spec_step(state, ctx.now, ctx.targets@, ctx.center, ctx.lure_present, *ctx.cfg)
}

/// Whether [`step`] can run on this context without leaving the clock's range.
pub open spec fn step_ok(state: FishingState, ctx: &StepCtx) -> bool {
    step_fits(state, ctx.now, ctx.targets@, ctx.center, ctx.lure_present, *ctx.cfg)
}

// ---------------------------------------------------------------------------
// Implementation
// ---------------------------------------------------------------------------

impl FishingState {
    /// Initial state: begin the startup grace period.
    pub fn new(now: u64, cfg: &Config) -> (s: Self)
        requires
            now + cfg.initializing_ms() <= u64::MAX,
        ensures
            s == (FishingState::Initializing { until: (now + cfg.initializing_ms()) as u64 }),
            s == (FishingState::Initializing {
                until: (now + cfg.initializing_secs * 1000) as u64,
            }),
    {
        FishingState::Initializing { until: now + cfg.initializing() }
    }
}

/// Advance the state machine one tick.
pub fn step(state: FishingState, ctx: &StepCtx) -> (r: (FishingState, Vec<Action>))
    requires
        step_ok(state, ctx),
    ensures
        r.0 == step_of(state, ctx).0,
        r.1@ == step_of(state, ctx).1,
{
    match state {
        FishingState::Initializing { until } => {
            if ctx.now >= until {
                begin_cast(ctx)
            } else {
                (state, Vec::new())
            }
        },
        FishingState::ApplyingLure { until } => {
            if ctx.now >= until {
                cast_now(ctx)
            } else {
                (state, Vec::new())
            }
        },
        FishingState::Casting => begin_cast(ctx),
        FishingState::Settling { until } => {
            if ctx.now >= until {
                // line has settled; start the bite window now
                (
                    FishingState::Searching {
                        recast_at: ctx.now + ctx.cfg.fishing_duration(),
                        candidate: None,
                    },
                    Vec::new(),
                )
            } else {
                (state, Vec::new())
            }
        },
        FishingState::Searching { recast_at, candidate } => {
            let near = nearest(ctx.targets, ctx.center);
            let candidate = update_candidate(candidate, near, ctx.now, ctx.cfg);
            match candidate {
                Some(c) => {
                    if ctx.now >= c.stable_since + ctx.cfg.stability() {
                        // confirmed stable long enough → reel, then pause to loot
                        let mut actions: Vec<Action> = Vec::new();
                        actions.push(Action::MoveTo(c.pos));
                        actions.push(Action::RightClick);
                        (FishingState::Looting { until: ctx.now + ctx.cfg.post_catch() }, actions)
                    } else {
                        // still confirming a sighting
                        (FishingState::Searching { recast_at, candidate: Some(c) }, Vec::new())
                    }
                },
                None => {
                    if ctx.now >= recast_at {
                        // nothing on the water and the bite window expired → recast
                        (FishingState::Casting, Vec::new())
                    } else {
                        (FishingState::Searching { recast_at, candidate: None }, Vec::new())
                    }
                },
            }
        },
        FishingState::Looting { until } => {
            if ctx.now >= until {
                begin_cast(ctx)
            } else {
                (state, Vec::new())
            }
        },
    }
}

/// Whether `now + secs` seconds fits in the millisecond clock.
fn secs_fit(now: u64, secs: u64) -> (r: bool)
    ensures
        r == (now + secs * 1000 <= u64::MAX),
{
    match secs.checked_mul(1000) {
        Some(ms) => now.checked_add(ms).is_some(),
        None => false,
    }
}

/// Whether a cast's deadline fits in the millisecond clock.
fn begin_cast_fits_now(ctx: &StepCtx) -> (r: bool)
    ensures
        r == begin_cast_fits(ctx.now, ctx.lure_present, *ctx.cfg),
{
    let needs = ctx.lure_present == Some(false) && keycode(ctx.cfg.lure_key).is_some();
    if needs {
        secs_fit(ctx.now, ctx.cfg.lure_cast_secs)
    } else {
        secs_fit(ctx.now, ctx.cfg.settle_secs)
    }
}

/// Whether [`step`] on this input keeps every clock sum within the clock's range.
pub fn step_in_range(state: FishingState, ctx: &StepCtx) -> (r: bool)
    ensures
        r == step_ok(state, ctx),
{
    match state {
        FishingState::Initializing { until } => ctx.now < until || begin_cast_fits_now(ctx),
        FishingState::ApplyingLure { until } => ctx.now < until || secs_fit(
            ctx.now,
            ctx.cfg.settle_secs,
        ),
        FishingState::Casting => begin_cast_fits_now(ctx),
        FishingState::Settling { until } => ctx.now < until || secs_fit(
            ctx.now,
            ctx.cfg.fishing_duration_secs,
        ),
        FishingState::Searching { recast_at, candidate } => {
            let near = nearest(ctx.targets, ctx.center);
            if let Some(c) = candidate {
                if near.is_none() && c.last_seen.checked_add(ctx.cfg.flicker_ms).is_none() {
                    return false;
                }
            }
            match update_candidate(candidate, near, ctx.now, ctx.cfg) {
                Some(c) => match c.stable_since.checked_add(ctx.cfg.stability_ms) {
                    Some(t) => ctx.now < t || ctx.now.checked_add(ctx.cfg.post_catch_ms).is_some(),
                    None => false,
                },
                None => true,
            }
        },
        FishingState::Looting { until } => ctx.now < until || begin_cast_fits_now(ctx),
    }
}

/// Advance the state machine one tick, or `None` where a deadline would leave the
/// millisecond clock's range (adding a duration to a clock reading past its range
/// is an error).
pub fn step_checked(state: FishingState, ctx: &StepCtx) -> (r: Option<(FishingState, Vec<Action>)>)
    ensures
        r is None <==> !step_ok(state, ctx),
        r is Some ==> r.unwrap().0 == step_of(state, ctx).0 && r.unwrap().1@ == step_of(
            state,
            ctx,
        ).1,
{
    if step_in_range(state, ctx) {
        Some(step(state, ctx))
    } else {
        None
    }
}

/// Apply a lure first if detection says it's missing, otherwise cast straight away.
fn begin_cast(ctx: &StepCtx) -> (r: (FishingState, Vec<Action>))
    requires
        begin_cast_fits(ctx.now, ctx.lure_present, *ctx.cfg),
    ensures
        r.0 == spec_begin_cast(ctx.now, ctx.lure_present, *ctx.cfg).0,
        r.1@ == spec_begin_cast(ctx.now, ctx.lure_present, *ctx.cfg).1,
{
    // only (re)apply when detection positively reports the lure is absent
    if ctx.lure_present == Some(false) {
        if let Some(code) = keycode(ctx.cfg.lure_key) {
            let mut actions: Vec<Action> = Vec::new();
            actions.push(Action::PressKey(code));
            proof {
                assert(actions@ =~= seq![Action::PressKey(code)]);
            }
            return (FishingState::ApplyingLure { until: ctx.now + ctx.cfg.lure_cast() }, actions);
        }
    }
    cast_now(ctx)
}

/// Emit the cast keypress(es), park the cursor, and start settling.
fn cast_now(ctx: &StepCtx) -> (r: (FishingState, Vec<Action>))
    requires
        ctx.now + ctx.cfg.settle_ms() <= u64::MAX,
    ensures
        r.0 == spec_cast_now(ctx.now, *ctx.cfg).0,
        r.1@ == spec_cast_now(ctx.now, *ctx.cfg).1,
{
    let keys = &ctx.cfg.cast_keys;
    let mut actions: Vec<Action> = Vec::new();
    let mut i: usize = 0;
    while i < keys.len()
        invariant
            i <= keys.len(),
            keys@ == ctx.cfg.cast_keys@,
            actions@ == key_presses(keys@.take(i as int)),
        decreases keys.len() - i,
    {
        proof {
            assert(keys@.take(i + 1).drop_last() =~= keys@.take(i as int));
        }
        if let Some(code) = keycode(keys[i]) {
            actions.push(Action::PressKey(code));
        }
        i += 1;
    }
    proof {
        assert(keys@.take(keys.len() as int) =~= keys@);
    }
    actions.push(Action::MoveTo(ctx.cfg.mouse_park()));
    // settle before watching the water (the bite window opens after this)
    (FishingState::Settling { until: ctx.now + ctx.cfg.settle() }, actions)
}

/// A squared distance held exactly: `carry * 2^128 + low` (the sum of two squared
/// 64-bit coordinate differences can exceed a `u128` by one bit).
struct Dist2 {
    carry: bool,
    low: u128,
}

spec fn dist2_value(d: Dist2) -> int {
    (if d.carry {
        0x1_0000_0000_0000_0000_0000_0000_0000_0000int
    } else {
        0int
    }) + d.low
}

/// `v * v` for the difference `v` of two `i64` coordinates, as a `u128`.
fn square_diff(a: i64, b: i64) -> (r: u128)
    ensures
        r == (a - b) * (a - b),
{
    let d: i128 = a as i128 - b as i128;
    let m: u128 = if d >= 0 {
        d as u128
    } else {
        (0i128 - d) as u128
    };
    proof {
        assert(m * m == (a - b) * (a - b)) by (nonlinear_arith)
            requires
                m == d || m == -d,
                d == a - b,
        ;
        assert(m * m <= 0xffff_ffff_ffff_ffff_ffff_ffff_ffff_ffff) by (nonlinear_arith)
            requires
                0 <= m <= 0xffff_ffff_ffff_ffff,
        ;
    }
    m * m
}

/// Exact squared distance between two points.
fn dist2(a: Point, b: Point) -> (r: Dist2)
    ensures
        dist2_value(r) == spec_dist2(a, b),
{
    let sx = square_diff(a.x, b.x);
    let sy = square_diff(a.y, b.y);
    match sx.checked_add(sy) {
        Some(sum) => Dist2 { carry: false, low: sum },
        None => Dist2 { carry: true, low: sx - (u128::MAX - sy) - 1 },
    }
}

/// Whether one exact squared distance is less than another.
fn dist2_lt(d1: &Dist2, d2: &Dist2) -> (r: bool)
    ensures
        r == (dist2_value(*d1) < dist2_value(*d2)),
{
    if d1.carry != d2.carry {
        d2.carry
    } else {
        d1.low < d2.low
    }
}

/// Nearest target to `center` by Euclidean distance (the first among ties).
fn nearest(targets: &[Point], center: Point) -> (r: Option<Point>)
    ensures
        r == spec_nearest(targets@, center),
{
    if targets.len() == 0 {
        return None;
    }
    let mut best: usize = 0;
    let mut best_d: Dist2 = dist2(targets[0], center);
    let mut i: usize = 1;
    proof {
        assert(targets@.take(1).len() == 1);
    }
    while i < targets.len()
        invariant
            1 <= i <= targets.len(),
            best < i,
            best as int == nearest_index(targets@.take(i as int), center),
            dist2_value(best_d) == spec_dist2(targets@[best as int], center),
        decreases targets.len() - i,
    {
        let d = dist2(targets[i], center);
        proof {
            let t = targets@.take(i + 1);
            assert(t.drop_last() =~= targets@.take(i as int));
            assert(t.last() == targets@[i as int]);
            assert(t[best as int] == targets@[best as int]);
        }
        if dist2_lt(&d, &best_d) {
            best = i;
            best_d = d;
        }
        i += 1;
    }
    proof {
        assert(targets@.take(targets.len() as int) =~= targets@);
    }
    Some(targets[best])
}

/// Advance the confirmation streak: extend it on a nearby sighting, start a fresh
/// one on a new sighting, and keep it alive across brief detection drop-outs.
/// Returns `None` once the streak lapses.
fn update_candidate(
    candidate: Option<Candidate>,
    nearest: Option<Point>,
    now: u64,
    cfg: &Config,
) -> (r: Option<Candidate>)
    requires
        (candidate is Some && nearest is None) ==> candidate->0.last_seen + cfg.flicker_ms
            <= u64::MAX,
    ensures
        r == spec_update_candidate(candidate, nearest, now, *cfg),
{
    let r: u128 = cfg.stability_radius as u128;
    proof {
        assert(r * r <= 0xffff_ffff_ffff_ffff_ffff_ffff_ffff_ffff) by (nonlinear_arith)
            requires
                r <= 0xffff_ffff_ffff_ffff,
        ;
    }
    let radius2 = Dist2 { carry: false, low: r * r };
    match nearest {
        Some(p) => {
            match candidate {
                // a sighting near the current streak extends it (keep the start time)
                Some(c) => {
                    if !dist2_lt(&radius2, &dist2(c.pos, p)) {
                        return Some(Candidate { pos: p, stable_since: c.stable_since, last_seen: now });
                    }
                },
                None => {},
            }
            // any other sighting starts a fresh streak
            Some(Candidate { pos: p, stable_since: now, last_seen: now })
        },
        None => {
            match candidate {
                // no sighting this tick: hold the streak only within the flicker grace
                Some(c) => {
                    if now <= c.last_seen + cfg.flicker_grace() {
                        Some(c)
                    } else {
                        None
                    }
                },
                None => None,
            }
        },
    }
}

/// Map a digit character to its Linux evdev keycode (KEY_1=2 … KEY_9=10, KEY_0=11).
pub fn keycode(c: char) -> (r: Option<u16>)
    ensures
        r == spec_keycode(c),
{
    if '1' <= c && c <= '9' {
        Some((c as u32 - '1' as u32 + 2) as u16)
    } else if c == '0' {
        Some(11)
    } else {
        None
    }
}

} // verus!
