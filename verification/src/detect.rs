//! Object detection: the geometry and planning around the detector backends.
//!
//! The cascade detector reports boxes whose centers become click points; the lure
//! matcher keeps one canonical buff icon pre-scaled across a band of scales and
//! scores every scale that fits in the searched image. The pixel work itself
//! (grayscale conversion, the cascade, resampling, template matching) is done by
//! OpenCV in the application shell; which boxes become which points and which
//! scales are built is decided here.
use crate::state::Point;
use vstd::prelude::*;

verus! {

/// A detection box in frame pixels (the layout of an OpenCV `Rect`).
#[derive(Debug, Clone, Copy, PartialEq, Eq, Structural)]
pub struct Rect {
    pub x: i32,
    pub y: i32,
    pub width: i32,
    pub height: i32,
}

/// The exact center of a box, `(x + width / 2, y + height / 2)`, as a point (in
/// thousandths of a pixel).
pub open spec fn spec_rect_center(r: Rect) -> Point {
    Point { x: (r.x * 1000 + r.width * 500) as i64, y: (r.y * 1000 + r.height * 500) as i64 }
}

/// Center point of a detection box.
pub fn rect_center(r: &Rect) -> (p: Point)
    ensures
        p == spec_rect_center(*r),
{
    Point {
        x: r.x as i64 * 1000 + r.width as i64 * 500,
        y: r.y as i64 * 1000 + r.height as i64 * 500,
    }
}

/// The click points of a list of detection boxes: their centers, in order.
pub fn rect_centers(rects: &Vec<Rect>) -> (ps: Vec<Point>)
    ensures
        ps@.len() == rects@.len(),
        forall|i: int| 0 <= i < rects@.len() ==> #[trigger] ps@[i] == spec_rect_center(rects@[i]),
{
    let mut ps: Vec<Point> = Vec::new();
    let mut i: usize = 0;
    while i < rects.len()
        invariant
            i <= rects@.len(),
            ps@.len() == i,
            forall|j: int| 0 <= j < i ==> #[trigger] ps@[j] == spec_rect_center(rects@[j]),
        decreases rects.len() - i,
    {
        ps.push(rect_center(&rects[i]));
        i += 1;
    }
    ps
}

// ---------------------------------------------------------------------------
// Lure-buff template scales
// ---------------------------------------------------------------------------

/// Smallest scale of the canonical lure icon, in percent. The canonical icon is
/// captured at 2560x1440; at lower render resolutions the on-screen icon is
/// smaller, so the template is scaled down across a band, in fine steps (the
/// correlation peak across scale is narrow), and the best match over all scales
/// wins. The band stops just above 100%: upscaling the small icon blurs it.
pub const LURE_SCALE_MIN_PCT: u32 = 50;
/// Largest scale of the canonical lure icon, in percent.
pub const LURE_SCALE_MAX_PCT: u32 = 105;
/// Step between successive scales, in percent.
pub const LURE_SCALE_STEP_PCT: u32 = 5;
/// Templates smaller than this (in either dimension) are too small to correlate.
pub const LURE_MIN_TEMPLATE: u64 = 4;

/// How a scaled template is produced from the canonical icon.
#[derive(Debug, Clone, Copy, PartialEq, Eq, Structural)]
pub enum Resample {
    /// The scale reproduces the canonical size: use the icon as is.
    Copy,
    /// Shrinking: area averaging (preserves the small icon's edges).
    Area,
    /// At or above the canonical size: bilinear.
    Linear,
}

/// One template of the multi-scale bank.
#[derive(Debug, Clone, Copy, PartialEq, Eq, Structural)]
pub struct TemplateScale {
    pub width: u64,
    pub height: u64,
    pub resample: Resample,
}

/// `dim` scaled by `pct` percent, rounded to the nearest pixel (halves up).
pub open spec fn scaled_len(dim: u32, pct: int) -> int {
    (dim * pct + 50) / 100
}

/// The number of scales in the band.
pub open spec fn lure_scale_count() -> nat {
    (((LURE_SCALE_MAX_PCT - LURE_SCALE_MIN_PCT) as int) / (LURE_SCALE_STEP_PCT as int) + 1) as nat
}

/// The percentage of band step `i`.
pub open spec fn step_pct(i: int) -> int {
    LURE_SCALE_MIN_PCT + LURE_SCALE_STEP_PCT * i
}

/// The template for band step `i` (scale `MIN + STEP * i` percent), if it is
/// large enough to use.
pub open spec fn scale_entry(cw: u32, ch: u32, i: int) -> Option<TemplateScale> {
    let pct = step_pct(i);
    let nw = scaled_len(cw, pct);
    let nh = scaled_len(ch, pct);
    if nw < LURE_MIN_TEMPLATE || nh < LURE_MIN_TEMPLATE {
        None
    } else {
        Some(
            TemplateScale {
                width: nw as u64,
                height: nh as u64,
                resample: if nw == cw && nh == ch {
                    Resample::Copy
                } else if pct < 100 {
                    Resample::Area
                } else {
                    Resample::Linear
                },
            },
        )
    }
}

/// The usable templates among the `count` largest band steps, largest first.
pub open spec fn plan_from(cw: u32, ch: u32, count: nat) -> Seq<TemplateScale>
    decreases count,
{
    if count == 0 {
        Seq::empty()
    } else {
        let prev = plan_from(cw, ch, (count - 1) as nat);
        match scale_entry(cw, ch, lure_scale_count() - count) {
            Some(e) => prev.push(e),
            None => prev,
        }
    }
}

/// The multi-scale bank for a `cw` × `ch` canonical icon: every band step whose
/// template is at least 4×4, largest scale first.
pub open spec fn spec_lure_scale_plan(cw: u32, ch: u32) -> Seq<TemplateScale> {
    plan_from(cw, ch, lure_scale_count())
}

/// Plan the multi-scale template bank for a `cw` × `ch` canonical lure icon.
pub fn lure_scale_plan(cw: u32, ch: u32) -> (plan: Vec<TemplateScale>)
    ensures
        plan@ == spec_lure_scale_plan(cw, ch),
{
    let steps: u32 = (LURE_SCALE_MAX_PCT - LURE_SCALE_MIN_PCT) / LURE_SCALE_STEP_PCT;
    let mut plan: Vec<TemplateScale> = Vec::new();
    let mut k: u32 = 0;
    while k <= steps
        invariant
            steps == 11,
            lure_scale_count() == 12,
            k <= steps + 1,
            plan@ == plan_from(cw, ch, k as nat),
        decreases steps + 1 - k,
    {
        let i: u32 = steps - k;
        let pct: u64 = (LURE_SCALE_MIN_PCT + LURE_SCALE_STEP_PCT * i) as u64;
        proof {
            assert(pct <= 105);
            assert(cw as u64 * pct <= 0xffff_ffff * 105) by (nonlinear_arith)
                requires
                    pct <= 105,
            ;
            assert(ch as u64 * pct <= 0xffff_ffff * 105) by (nonlinear_arith)
                requires
                    pct <= 105,
            ;
        }
        let nw: u64 = (cw as u64 * pct + 50) / 100;
        let nh: u64 = (ch as u64 * pct + 50) / 100;
        proof {
            assert(lure_scale_count() - (k + 1) == i);
        }
        if nw >= LURE_MIN_TEMPLATE && nh >= LURE_MIN_TEMPLATE {
            let resample = if nw == cw as u64 && nh == ch as u64 {
                Resample::Copy
            } else if pct < 100 {
                Resample::Area
            } else {
                Resample::Linear
            };
            plan.push(TemplateScale { width: nw, height: nh, resample });
        }
        k += 1;
    }
    plan
}

/// Scaling is monotone: a larger percentage never gives a shorter length.
proof fn lemma_scaled_len_monotone(dim: u32, p1: int, p2: int)
    requires
        0 <= p1 <= p2,
    ensures
        scaled_len(dim, p1) <= scaled_len(dim, p2),
{
    assert(dim * p1 <= dim * p2) by (nonlinear_arith)
        requires
            0 <= p1 <= p2,
            dim >= 0,
    ;
    assert((dim * p1 + 50) / 100 <= (dim * p2 + 50) / 100) by (nonlinear_arith)
        requires
            0 <= dim * p1 <= dim * p2,
    ;
}

proof fn lemma_plan_from_sorted(cw: u32, ch: u32, count: nat)
    requires
        count <= lure_scale_count(),
    ensures
        ({
            let plan = plan_from(cw, ch, count);
            &&& forall|i: int|
                0 <= i < plan.len() ==> (#[trigger] plan[i]).width >= LURE_MIN_TEMPLATE
                    && plan[i].height >= LURE_MIN_TEMPLATE
            &&& forall|i: int, j: int|
                0 <= i < j < plan.len() ==> (#[trigger] plan[i]).width >= (#[trigger] plan[j]).width
                    && plan[i].height >= plan[j].height
            &&& count > 0 ==> forall|i: int|
                0 <= i < plan.len() ==> (#[trigger] plan[i]).width >= scaled_len(
                    cw,
                    step_pct(lure_scale_count() - count),
                ) && plan[i].height >= scaled_len(ch, step_pct(lure_scale_count() - count))
        }),
    decreases count,
{
    if count > 0 {
        let k = (count - 1) as nat;
        lemma_plan_from_sorted(cw, ch, k);
        let prev = plan_from(cw, ch, k);
        let i_new = lure_scale_count() - count;
        lemma_scaled_len_monotone(cw, step_pct(i_new), step_pct(i_new + 1));
        lemma_scaled_len_monotone(ch, step_pct(i_new), step_pct(i_new + 1));
        assert(step_pct(i_new + 1) == step_pct(lure_scale_count() - k));
        let lo_w = scaled_len(cw, step_pct(i_new));
        let lo_h = scaled_len(ch, step_pct(i_new));
        assert forall|i: int| 0 <= i < prev.len() implies (#[trigger] prev[i]).width >= lo_w
            && prev[i].height >= lo_h by {
            if k > 0 {
                assert(prev[i].width >= scaled_len(cw, step_pct(lure_scale_count() - k)));
                assert(prev[i].height >= scaled_len(ch, step_pct(lure_scale_count() - k)));
            }
        }
        assert(0 <= step_pct(i_new) <= 105);
        lemma_scaled_len_monotone(cw, 0, step_pct(i_new));
        lemma_scaled_len_monotone(ch, 0, step_pct(i_new));
        lemma_scaled_len_monotone(cw, step_pct(i_new), 105);
        lemma_scaled_len_monotone(ch, step_pct(i_new), 105);
        assert(scaled_len(cw, 105) <= 0x1_0000_0000_0000) by (nonlinear_arith)
            requires
                cw <= 0xffff_ffff,
        ;
        assert(scaled_len(ch, 105) <= 0x1_0000_0000_0000) by (nonlinear_arith)
            requires
                ch <= 0xffff_ffff,
        ;
        let plan = plan_from(cw, ch, count);
        match scale_entry(cw, ch, i_new) {
            Some(e) => {
                assert(plan == prev.push(e));
                assert(e.width == lo_w && e.height == lo_h);
                assert forall|i: int| 0 <= i < plan.len() - 1 implies #[trigger] plan[i] == prev[i] by {}
                assert forall|i: int, j: int| 0 <= i < j < plan.len() implies (
                #[trigger] plan[i]).width >= (#[trigger] plan[j]).width && plan[i].height
                    >= plan[j].height by {
                    if j == plan.len() - 1 {
                        assert(plan[i] == prev[i]);
                    } else {
                        assert(plan[i] == prev[i]);
                        assert(plan[j] == prev[j]);
                    }
                }
                assert forall|i: int| 0 <= i < plan.len() implies (#[trigger] plan[i]).width >= lo_w
                    && plan[i].height >= lo_h by {
                    if i < plan.len() - 1 {
                        assert(plan[i] == prev[i]);
                    }
                }
            },
            None => {
                assert(plan == prev);
            },
        }
    }
}

/// The template bank is ordered largest first, and every template is at least
/// 4×4 pixels.
pub proof fn law_lure_plan_largest_first(cw: u32, ch: u32)
    ensures
        ({
            let plan = spec_lure_scale_plan(cw, ch);
            &&& forall|i: int|
                0 <= i < plan.len() ==> (#[trigger] plan[i]).width >= LURE_MIN_TEMPLATE
                    && plan[i].height >= LURE_MIN_TEMPLATE
            &&& forall|i: int, j: int|
                0 <= i < j < plan.len() ==> (#[trigger] plan[i]).width >= (#[trigger] plan[j]).width
                    && plan[i].height >= plan[j].height
        }),
{
    lemma_plan_from_sorted(cw, ch, lure_scale_count());
}

/// A template can be matched against an `rw` × `rh` image only if it fits inside.
pub fn template_fits(tw: i32, th: i32, rw: i32, rh: i32) -> (r: bool)
    ensures
        r == (tw <= rw && th <= rh),
{
    tw <= rw && th <= rh
}

} // verus!
