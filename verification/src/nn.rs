//! Geometry of the learned (ONNX) bobber detector.
//!
//! A YOLO-style detect head runs on a square input: an (optional) region of the
//! frame is cropped, letterboxed into the model's square input, the head's
//! `(1, 4+nc, anchors)` output (or its transpose) is decoded, and the surviving box
//! centers are mapped back to full-frame coordinates. The inference and the
//! floating-point decoding run in the application shell; the crop rectangle, the
//! letterbox layout and the output-head layout are decided here.
use crate::config::Roi;
use vstd::prelude::*;

verus! {

/// A pixel rectangle inside a frame.
#[derive(Debug, Clone, Copy, PartialEq, Eq, Structural)]
pub struct PixelRect {
    pub x: i32,
    pub y: i32,
    pub w: i32,
    pub h: i32,
}

/// `ppm` millionths of `len`, rounded to the nearest pixel (halves up).
pub open spec fn fraction_of(ppm: u32, len: i32) -> int {
    (ppm * len + 500_000) / 1_000_000
}

/// `v` limited to `lo..=hi`.
pub open spec fn clamp(v: int, lo: int, hi: int) -> int {
    if v < lo {
        lo
    } else if v > hi {
        hi
    } else {
        v
    }
}

/// The pixel crop for a `fw` × `fh` frame: the whole frame without a region of
/// interest; otherwise the region scaled to the frame and clamped so that it starts
/// inside the frame and is at least one pixel in each direction.
pub open spec fn spec_roi_rect(roi: Option<Roi>, fw: i32, fh: i32) -> PixelRect {
    match roi {
        None => PixelRect { x: 0, y: 0, w: fw, h: fh },
        Some(r) => {
            let x = clamp(fraction_of(r.x, fw), 0, fw - 1);
            let y = clamp(fraction_of(r.y, fh), 0, fh - 1);
            let w = clamp(fraction_of(r.w, fw), 1, fw - x);
            let h = clamp(fraction_of(r.h, fh), 1, fh - y);
            PixelRect { x: x as i32, y: y as i32, w: w as i32, h: h as i32 }
        },
    }
}

/// The crop of a region of interest scales each horizontal quantity by the frame
/// width and each vertical one by the frame height: its left edge is
/// `round(x · fw)` and its top edge `round(y · fh)` (fractions in millionths,
/// halves rounding up), each kept inside the frame; its width is `round(w · fw)`
/// and its height `round(h · fh)`, each at least one pixel and cut off at the
/// frame's right or bottom edge.
pub proof fn law_roi_scales_each_axis(roi: Roi, fw: i32, fh: i32)
    requires
        fw >= 1,
        fh >= 1,
    ensures
        ({
            let r = spec_roi_rect(Some(roi), fw, fh);
            let x0 = (roi.x * fw + 500_000) / 1_000_000;
            let y0 = (roi.y * fh + 500_000) / 1_000_000;
            let w0 = (roi.w * fw + 500_000) / 1_000_000;
            let h0 = (roi.h * fh + 500_000) / 1_000_000;
            &&& r.x == (if x0 < fw { x0 } else { fw - 1 })
            &&& r.y == (if y0 < fh { y0 } else { fh - 1 })
            &&& r.w == (if w0 < 1 { 1 } else if w0 <= fw - r.x { w0 } else { fw - r.x })
            &&& r.h == (if h0 < 1 { 1 } else if h0 <= fh - r.y { h0 } else { fh - r.y })
        }),
{
    assert(roi.x * fw >= 0 && roi.y * fh >= 0 && roi.w * fw >= 0 && roi.h * fh >= 0)
        by (nonlinear_arith)
        requires
            fw >= 1,
            fh >= 1,
    ;
}

/// With no region of interest the detector reads the whole frame.
pub proof fn law_no_roi_is_whole_frame(fw: i32, fh: i32)
    ensures
        spec_roi_rect(None, fw, fh) == (PixelRect { x: 0, y: 0, w: fw, h: fh }),
{
}

/// `ppm` millionths of `len` (≥ 1), rounded, then clamped to `lo..=hi`.
fn scaled_clamped(ppm: u32, len: i32, lo: i64, hi: i64) -> (v: i64)
    requires
        len >= 1,
        lo <= hi,
    ensures
        v == clamp(fraction_of(ppm, len), lo as int, hi as int),
{
    proof {
        assert(ppm * len <= 0xffff_ffff * 0x7fff_ffff) by (nonlinear_arith)
            requires
                1 <= len <= 0x7fff_ffff,
                ppm <= 0xffff_ffff,
        ;
        assert(ppm * len >= 0) by (nonlinear_arith)
            requires
                1 <= len,
        ;
    }
    let v: i128 = (ppm as i128 * len as i128 + 500_000) / 1_000_000;
    if v < lo as i128 {
        lo
    } else if v > hi as i128 {
        hi
    } else {
        v as i64
    }
}

/// Pixel crop rectangle (clamped to the frame) for a `fw` × `fh` frame.
pub fn roi_rect(roi: Option<Roi>, fw: i32, fh: i32) -> (r: PixelRect)
    requires
        roi is Some ==> fw >= 1 && fh >= 1,
    ensures
        r == spec_roi_rect(roi, fw, fh),
        roi is Some ==> {
            &&& 0 <= r.x < fw
            &&& 0 <= r.y < fh
            &&& 1 <= r.w <= fw - r.x
            &&& 1 <= r.h <= fh - r.y
        },
{
    match roi {
        None => PixelRect { x: 0, y: 0, w: fw, h: fh },
        Some(rr) => {
            let x = scaled_clamped(rr.x, fw, 0, fw as i64 - 1);
            let y = scaled_clamped(rr.y, fh, 0, fh as i64 - 1);
            let w = scaled_clamped(rr.w, fw, 1, fw as i64 - x);
            let h = scaled_clamped(rr.h, fh, 1, fh as i64 - y);
            PixelRect { x: x as i32, y: y as i32, w: w as i32, h: h as i32 }
        },
    }
}

/// Where a resized crop sits inside the square model input, with the padding
/// on each side.
#[derive(Debug, Clone, Copy, PartialEq, Eq, Structural)]
pub struct Letterbox {
    pub new_w: i32,
    pub new_h: i32,
    pub left: i32,
    pub top: i32,
    pub right: i32,
    pub bottom: i32,
}

/// `num / den` rounded to the nearest integer (halves up), for `den > 0`.
pub open spec fn round_div(num: int, den: int) -> int {
    (2 * num + den) / (2 * den)
}

/// Letterboxing a `cw` × `ch` crop into an `n` × `n` input: scale by
/// `n / max(cw, ch)` (so the longer side fills the input and the aspect ratio is
/// kept), round to whole pixels, and split the padding evenly (the odd pixel goes
/// right / bottom).
pub open spec fn spec_letterbox(n: i32, cw: i32, ch: i32) -> Letterbox {
    let m: int = if cw >= ch {
        cw as int
    } else {
        ch as int
    };
    let new_w = round_div(cw * n, m);
    let new_h = round_div(ch * n, m);
    let left = (n - new_w) / 2;
    let top = (n - new_h) / 2;
    Letterbox {
        new_w: new_w as i32,
        new_h: new_h as i32,
        left: left as i32,
        top: top as i32,
        right: (n - new_w - left) as i32,
        bottom: (n - new_h - top) as i32,
    }
}

/// `len * n / m` rounded, for `1 <= len <= m`.
fn scale_to(len: i32, n: i32, m: i32) -> (v: i32)
    requires
        1 <= len <= m,
        n >= 1,
    ensures
        v == round_div(len * n, m as int),
        0 <= v <= n,
{
    proof {
        assert(len * n <= 0x7fff_ffff * 0x7fff_ffff) by (nonlinear_arith)
            requires
                1 <= len <= 0x7fff_ffff,
                1 <= n <= 0x7fff_ffff,
        ;
        assert(len * n <= m * n) by (nonlinear_arith)
            requires
                1 <= len <= m,
                n >= 1,
        ;
        assert((2 * (len * n) + m) / (2 * m) <= n) by (nonlinear_arith)
            requires
                len * n <= m * n,
                m >= 1,
                n >= 1,
        ;
        assert((2 * (len * n) + m) / (2 * m) >= 0) by (nonlinear_arith)
            requires
                len * n >= 0,
                m >= 1,
        ;
    }
    let num: u64 = 2 * (len as u64 * n as u64) + m as u64;
    (num / (2 * m as u64)) as i32
}

/// Lay out a `cw` × `ch` crop inside the square `n` × `n` model input.
pub fn letterbox(n: i32, cw: i32, ch: i32) -> (lb: Letterbox)
    requires
        n >= 1,
        cw >= 1,
        ch >= 1,
    ensures
        lb == spec_letterbox(n, cw, ch),
        0 <= lb.new_w <= n,
        0 <= lb.new_h <= n,
        lb.left >= 0 && lb.right >= 0 && lb.left + lb.new_w + lb.right == n,
        lb.top >= 0 && lb.bottom >= 0 && lb.top + lb.new_h + lb.bottom == n,
{
    let m = if cw >= ch {
        cw
    } else {
        ch
    };
    let new_w = scale_to(cw, n, m);
    let new_h = scale_to(ch, n, m);
    let left = (n - new_w) / 2;
    let top = (n - new_h) / 2;
    Letterbox { new_w, new_h, left, top, right: n - new_w - left, bottom: n - new_h - top }
}

// ---------------------------------------------------------------------------
// The detect head's output layout
// ---------------------------------------------------------------------------

/// Why a detect head's output shape cannot be decoded.
#[derive(Debug, Clone, Copy, PartialEq, Eq, Structural)]
pub enum HeadError {
    /// The output is not three-dimensional (it has this many axes).
    Rank(usize),
    /// The output batch is not 1 (it is this).
    Batch(usize),
    /// Fewer than 4 box coordinates + 1 class score per anchor (this many).
    TooFewAttributes(usize),
}

/// How to read a `(1, attributes, anchors)` head, or its transpose.
#[derive(Debug, Clone, Copy, PartialEq, Eq, Structural)]
pub struct HeadLayout {
    /// The output is `(1, anchors, attributes)`.
    pub transposed: bool,
    /// Attributes per anchor: 4 box coordinates then the class scores.
    pub n_attr: usize,
    /// Number of anchors (candidate boxes).
    pub n_anchor: usize,
}

/// The layout of a head with output `shape`: it must be `(1, a, b)`; the
/// attribute axis (4 box coordinates + class scores) is the smaller of the two
/// (the second when they are equal) and must hold at least 5 attributes.
pub open spec fn spec_head_layout(shape: Seq<usize>) -> Result<HeadLayout, HeadError> {
    if shape.len() != 3 {
        Err(HeadError::Rank(shape.len() as usize))
    } else if shape[0] != 1 {
        Err(HeadError::Batch(shape[0]))
    } else {
        let transposed = shape[1] > shape[2];
        let n_attr = if transposed {
            shape[2]
        } else {
            shape[1]
        };
        let n_anchor = if transposed {
            shape[1]
        } else {
            shape[2]
        };
        if n_attr < 5 {
            Err(HeadError::TooFewAttributes(n_attr))
        } else {
            Ok(HeadLayout { transposed, n_attr, n_anchor })
        }
    }
}

/// Decide how to read the detect head's output of the given shape.
pub fn head_layout(shape: &[usize]) -> (r: Result<HeadLayout, HeadError>)
    ensures
        r == spec_head_layout(shape@),
{
    if shape.len() != 3 {
        return Err(HeadError::Rank(shape.len()));
    }
    if shape[0] != 1 {
        return Err(HeadError::Batch(shape[0]));
    }
    // head is (1, 4+nc, anchors); some exports transpose to (1, anchors, 4+nc).
    // the attribute axis (4 box coords + nc class scores) is the smaller one.
    let transposed = shape[1] > shape[2];
    let (n_attr, n_anchor) = if transposed {
        (shape[2], shape[1])
    } else {
        (shape[1], shape[2])
    };
    if n_attr < 5 {
        return Err(HeadError::TooFewAttributes(n_attr));
    }
    Ok(HeadLayout { transposed, n_attr, n_anchor })
}

impl HeadLayout {
    /// The output index of attribute `attr` of anchor `anchor`.
    pub fn index(&self, attr: usize, anchor: usize) -> (ix: (usize, usize, usize))
        ensures
            ix == (if self.transposed {
                (0usize, anchor, attr)
            } else {
                (0usize, attr, anchor)
            }),
    {
        if self.transposed {
            (0, anchor, attr)
        } else {
            (0, attr, anchor)
        }
    }
}

} // verus!
