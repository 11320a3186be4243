//! Frame capture + detection loop: the decisions of the capture thread.
//!
//! The shell pulls frames from the portal's PipeWire stream (GStreamer
//! `pipewiresrc` through OpenCV's `VideoCapture`), runs the active detector on
//! each, and publishes a [`CaptureState`] snapshot to the controller. What that
//! loop decides — the capture pipeline description, when to log a new sighting or
//! a changed lure verdict, and what the snapshot holds — is here. (The lure buff
//! is re-read once per cast, when the controller asks for it.)
use crate::frame::{center_of, frame_center};
use crate::state::Point;
use vstd::prelude::*;
use vstd::string::*;

verus! {

/// Latest detection snapshot handed to the controller.
#[derive(Debug, Clone)]
pub struct CaptureState {
    pub center: Point,
    pub targets: Vec<Point>,
    pub width: u32,
    pub height: u32,
    /// `Some(true/false)` when lure detection is enabled, `None` when it's off.
    pub lure_present: Option<bool>,
}

impl Default for CaptureState {
    fn default() -> (s: Self)
        ensures
            s.center == (Point { x: 0, y: 0 }),
            s.targets@ == Seq::<Point>::empty(),
            s.width == 0,
            s.height == 0,
            s.lure_present is None,
    {
        CaptureState {
            center: Point { x: 0, y: 0 },
            targets: Vec::new(),
            width: 0,
            height: 0,
            lure_present: None,
        }
    }
}

// ---------------------------------------------------------------------------
// The capture pipeline description
// ---------------------------------------------------------------------------

/// The character of a decimal digit.
pub open spec fn digit_char(d: int) -> char {
    if d == 0 {
        '0'
    } else if d == 1 {
        '1'
    } else if d == 2 {
        '2'
    } else if d == 3 {
        '3'
    } else if d == 4 {
        '4'
    } else if d == 5 {
        '5'
    } else if d == 6 {
        '6'
    } else if d == 7 {
        '7'
    } else if d == 8 {
        '8'
    } else {
        '9'
    }
}

/// The decimal representation of a natural number (no leading zeros).
pub open spec fn decimal(n: nat) -> Seq<char>
    decreases n,
{
    if n < 10 {
        seq![digit_char(n as int)]
    } else {
        decimal(n / 10).push(digit_char((n % 10) as int))
    }
}

/// The decimal representation of an integer, with a leading `-` when negative.
pub open spec fn signed_decimal(i: int) -> Seq<char> {
    if i < 0 {
        seq!['-'] + decimal((-i) as nat)
    } else {
        decimal(i as nat)
    }
}

/// The GStreamer pipeline that reads the portal's PipeWire stream: convert,
/// rate-limit to `target_fps` before the BGR readback, and hand frames to an
/// appsink that keeps at most two and drops the rest.
pub open spec fn spec_pipeline(fd: i32, node_id: u32, target_fps: u32) -> Seq<char> {
    "pipewiresrc fd="@ + signed_decimal(fd as int) + " path="@ + decimal(node_id as nat)
        + " ! videoconvert ! videorate ! video/x-raw,format=BGR,framerate="@ + decimal(
        target_fps as nat,
    ) + "/1 ! appsink drop=true max-buffers=2 sync=false"@
}

fn digit_str(d: u64) -> (s: &'static str)
    requires
        d < 10,
    ensures
        s@ == seq![digit_char(d as int)],
{
    match d {
        0 => {
            proof {
                reveal_strlit("0");
            }
            "0"
        },
        1 => {
            proof {
                reveal_strlit("1");
            }
            "1"
        },
        2 => {
            proof {
                reveal_strlit("2");
            }
            "2"
        },
        3 => {
            proof {
                reveal_strlit("3");
            }
            "3"
        },
        4 => {
            proof {
                reveal_strlit("4");
            }
            "4"
        },
        5 => {
            proof {
                reveal_strlit("5");
            }
            "5"
        },
        6 => {
            proof {
                reveal_strlit("6");
            }
            "6"
        },
        7 => {
            proof {
                reveal_strlit("7");
            }
            "7"
        },
        8 => {
            proof {
                reveal_strlit("8");
            }
            "8"
        },
        _ => {
            proof {
                reveal_strlit("9");
            }
            "9"
        },
    }
}

/// Append the decimal representation of `n`.
fn push_decimal(s: &mut String, n: u64)
    ensures
        final(s)@ == old(s)@ + decimal(n as nat),
    decreases n,
{
    if n >= 10 {
        push_decimal(s, n / 10);
    }
    s.append(digit_str(n % 10));
    proof {
        assert(s@ =~= old(s)@ + decimal(n as nat));
    }
}

/// Append the decimal representation of `i`, signed.
fn push_signed(s: &mut String, i: i32)
    ensures
        final(s)@ == old(s)@ + signed_decimal(i as int),
{
    if i < 0 {
        proof {
            reveal_strlit("-");
        }
        s.append("-");
        let m: u64 = (0i64 - i as i64) as u64;
        push_decimal(s, m);
        proof {
            assert(s@ =~= old(s)@ + signed_decimal(i as int));
        }
    } else {
        push_decimal(s, i as u64);
    }
}

/// Build the GStreamer pipeline string for OpenCV's `VideoCapture`.
///
/// `videorate` caps the stream to `target_fps` *before* the BGR readback, so the
/// reduction also cuts the per-frame GPU→system-memory copy at the source.
pub fn pipeline(fd: i32, node_id: u32, target_fps: u32) -> (p: String)
    ensures
        p@ == spec_pipeline(fd, node_id, target_fps),
{
    let mut s = String::from_str("pipewiresrc fd=");
    push_signed(&mut s, fd);
    s.append(" path=");
    push_decimal(&mut s, node_id as u64);
    s.append(" ! videoconvert ! videorate ! video/x-raw,format=BGR,framerate=");
    push_decimal(&mut s, target_fps as u64);
    s.append("/1 ! appsink drop=true max-buffers=2 sync=false");
    proof {
        assert(s@ =~= spec_pipeline(fd, node_id, target_fps));
    }
    s
}

// ---------------------------------------------------------------------------
// The capture loop's bookkeeping
// ---------------------------------------------------------------------------

/// What the capture loop remembers between frames.
#[derive(Debug, Clone, Copy, PartialEq, Eq, Structural)]
pub struct CaptureLoop {
    /// The previous frame had at least one detection.
    pub had_targets: bool,
    /// The latest lure verdict (`None` until a check succeeded).
    pub lure_present: Option<bool>,
}

impl CaptureLoop {
    /// No detections yet, no lure verdict.
    pub fn new() -> (s: Self)
        ensures
            s == (CaptureLoop { had_targets: false, lure_present: None }),
    {
        CaptureLoop { had_targets: false, lure_present: None }
    }

    /// Record this frame's detection count; true on the rising edge (bobbers
    /// appear after a frame with none), which the shell logs.
    pub fn note_targets(&mut self, count: usize) -> (rising: bool)
        ensures
            rising == (count > 0 && !old(self).had_targets),
            final(self).had_targets == (count > 0),
            final(self).lure_present == old(self).lure_present,
    {
        let rising = count > 0 && !self.had_targets;
        self.had_targets = count > 0;
        rising
    }

    /// Record a lure verdict; true when it differs from the previous one (the
    /// shell logs the change).
    pub fn record_lure(&mut self, present: bool) -> (changed: bool)
        ensures
            changed == (old(self).lure_present != Some(present)),
            final(self).lure_present == Some(present),
            final(self).had_targets == old(self).had_targets,
    {
        let changed = match self.lure_present {
            Some(p) => p != present,
            None => true,
        };
        self.lure_present = Some(present);
        changed
    }

    /// The snapshot to publish for a `width` × `height` frame with `targets`.
    pub fn snapshot(&self, width: u32, height: u32, targets: Vec<Point>) -> (s: CaptureState)
        ensures
            s.center == frame_center(width, height),
            s.targets@ == targets@,
            s.width == width,
            s.height == height,
            s.lure_present == self.lure_present,
    {
        CaptureState {
            center: center_of(width, height),
            targets,
            width,
            height,
            lure_present: self.lure_present,
        }
    }
}

} // verus!
