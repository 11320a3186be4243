//! Runtime configuration. Defaults live in code; the application shell may
//! override any field (an optional `config.toml`, CLI flags).
//!
//! Units: every duration is kept as a whole number of seconds or milliseconds
//! (as the field name says), every clock reading used by the state machine is a
//! millisecond count, frame coordinates and distances are in thousandths of a
//! pixel, and every fractional knob (a confidence threshold, a normalized crop
//! region) is kept in millionths ("ppm").
use crate::state::Point;
use vstd::prelude::*;
use vstd::string::*;

verus! {

/// Which bobber detector backend to run.
#[derive(Debug, Clone, Copy, PartialEq, Eq, Structural)]
pub enum DetectorBackend {
    /// The OpenCV Haar cascade (scenery-sensitive fallback).
    Cascade,
    /// The YOLO-style ONNX detector (the default).
    Nn,
}

/// A normalized crop region `(x, y, w, h)` of the frame, each in millionths of
/// the frame's width or height (`(0, 0, 1_000_000, 500_000)` is the top half).
#[derive(Debug, Clone, Copy, PartialEq, Eq, Structural)]
pub struct Roi {
    pub x: u32,
    pub y: u32,
    pub w: u32,
    pub h: u32,
}

#[derive(Debug, Clone)]
pub struct Config {
    /// Startup grace period before the first cast (seconds).
    pub initializing_secs: u64,
    /// Recast if no bobber is clicked within this long (seconds).
    pub fishing_duration_secs: u64,
    /// How long applying a lure takes before we can cast (seconds).
    pub lure_cast_secs: u64,
    /// Quiet period after casting before the bot watches for a bite — lets the
    /// cast animation / idle bobber settle so it won't false-trigger or reel early.
    pub settle_secs: u64,
    /// Pause after reeling in a fish before recasting (milliseconds).
    pub post_catch_ms: u64,
    /// Action-bar keys pressed to cast. One key is recommended — pressing Fishing
    /// twice back-to-back cancels the first cast.
    pub cast_keys: Vec<char>,
    /// Action-bar key that applies the lure.
    pub lure_key: char,
    /// Skip lure detection/application entirely.
    pub skip_lure: bool,
    /// Cascade model to load, relative to the asset root.
    pub model: String,
    /// Where to park the cursor after casting so it doesn't cover the bobber
    /// (frame coordinates, thousandths of a pixel).
    pub mouse_park: Point,
    /// Lure-buff template image, relative to the asset root.
    pub lure_icon: Option<String>,
    // --- detection tuning ---
    /// Cascade `min_neighbors` — higher rejects more weak detections.
    pub min_neighbors: i32,
    /// A bobber must stay detected (within `stability_radius`) for this long
    /// before the bot reels (milliseconds).
    pub stability_ms: u64,
    /// Tolerate detection drop-outs up to this long without losing the streak
    /// (milliseconds).
    pub flicker_ms: u64,
    /// How close successive detections must be to count as the same bobber
    /// (thousandths of a pixel).
    pub stability_radius: u64,
    /// Min template-match confidence to consider the lure buff present (millionths).
    pub lure_threshold_ppm: u32,
    // --- detector backend ---
    /// Which detector runs on each frame.
    pub backend: DetectorBackend,
    /// Capture rate cap (frames per second).
    pub target_fps: u32,
    /// ONNX model for the NN backend, relative to the asset root.
    pub nn_model: String,
    /// Square NN input edge in pixels (must equal the export `imgsz`).
    pub nn_input_size: i32,
    /// NN confidence gate (millionths).
    pub nn_conf_threshold_ppm: u32,
    /// NN non-max-suppression IoU gate (millionths).
    pub nn_iou_threshold_ppm: u32,
    /// Optional crop region for NN detection; `None` = the whole frame.
    pub roi: Option<Roi>,
}

/// Where the lure-buff template comes from, if lure detection runs at all.
#[derive(Debug)]
pub enum LureSource {
    /// Lure detection is switched off (`skip_lure`).
    Skipped,
    /// Lure detection is on but no template is configured: it stays disabled.
    NoIcon,
    /// Load the template from this path (relative to the asset root).
    Icon(String),
}

impl Config {
    /// Whether (and from where) the lure matcher is built: not at all when lure
    /// detection is skipped, disabled (with a warning) when no icon is configured,
    /// otherwise from the configured icon.
    pub fn lure_source(&self) -> (s: LureSource)
        ensures
            s is Skipped <==> self.skip_lure,
            s is NoIcon <==> !self.skip_lure && self.lure_icon is None,
            s is Icon <==> !self.skip_lure && self.lure_icon is Some,
            s is Icon ==> s->Icon_0@ == self.lure_icon->0@,
    {
        if self.skip_lure {
            return LureSource::Skipped;
        }
        match &self.lure_icon {
            Some(icon) => LureSource::Icon(icon.clone()),
            None => LureSource::NoIcon,
        }
    }

    /// The startup grace period, in milliseconds.
    pub open spec fn initializing_ms(&self) -> int {
        self.initializing_secs * 1000
    }

    /// The bite window, in milliseconds.
    pub open spec fn fishing_duration_ms(&self) -> int {
        self.fishing_duration_secs * 1000
    }

    /// The lure application time, in milliseconds.
    pub open spec fn lure_cast_ms(&self) -> int {
        self.lure_cast_secs * 1000
    }

    /// The settle window, in milliseconds.
    pub open spec fn settle_ms(&self) -> int {
        self.settle_secs * 1000
    }

    /// The cursor park position as a point.
    pub open spec fn park_point(&self) -> Point {
        self.mouse_park
    }

    /// The startup grace period (milliseconds).
    pub fn initializing(&self) -> (d: u64)
        requires
            self.initializing_ms() <= u64::MAX,
        ensures
            d == self.initializing_ms(),
            d == self.initializing_secs * 1000,
    {
        self.initializing_secs * 1000
    }

    /// The bite window before a recast (milliseconds).
    pub fn fishing_duration(&self) -> (d: u64)
        requires
            self.fishing_duration_ms() <= u64::MAX,
        ensures
            d == self.fishing_duration_ms(),
            d == self.fishing_duration_secs * 1000,
    {
        self.fishing_duration_secs * 1000
    }

    /// The time a lure takes to apply (milliseconds).
    pub fn lure_cast(&self) -> (d: u64)
        requires
            self.lure_cast_ms() <= u64::MAX,
        ensures
            d == self.lure_cast_ms(),
            d == self.lure_cast_secs * 1000,
    {
        self.lure_cast_secs * 1000
    }

    /// The settle window after a cast (milliseconds).
    pub fn settle(&self) -> (d: u64)
        requires
            self.settle_ms() <= u64::MAX,
        ensures
            d == self.settle_ms(),
            d == self.settle_secs * 1000,
    {
        self.settle_secs * 1000
    }

    /// The loot pause after a catch (milliseconds).
    pub fn post_catch(&self) -> (d: u64)
        ensures
            d == self.post_catch_ms,
    {
        self.post_catch_ms
    }

    /// How long a sighting must persist before a reel (milliseconds).
    pub fn stability(&self) -> (d: u64)
        ensures
            d == self.stability_ms,
    {
        self.stability_ms
    }

    /// How long a detection drop-out is tolerated (milliseconds).
    pub fn flicker_grace(&self) -> (d: u64)
        ensures
            d == self.flicker_ms,
    {
        self.flicker_ms
    }

    /// Where the cursor is parked after a cast.
    pub fn mouse_park(&self) -> (p: Point)
        ensures
            p == self.park_point(),
            p == self.mouse_park,
    {
        self.mouse_park
    }
}

/// Each duration of the configuration in milliseconds is read from its own
/// field: the grace period from `initializing_secs`, the bite window from
/// `fishing_duration_secs`, the lure time from `lure_cast_secs`, the settle time
/// from `settle_secs` (seconds × 1000); the park point is `mouse_park`.
pub proof fn law_durations_from_their_fields(cfg: Config)
    ensures
        cfg.initializing_ms() == cfg.initializing_secs * 1000,
        cfg.fishing_duration_ms() == cfg.fishing_duration_secs * 1000,
        cfg.lure_cast_ms() == cfg.lure_cast_secs * 1000,
        cfg.settle_ms() == cfg.settle_secs * 1000,
        cfg.park_point() == cfg.mouse_park,
{
}

impl Default for Config {
    fn default() -> (c: Self)
        ensures
            c.initializing_secs == 10,
            c.fishing_duration_secs == 30,
            c.lure_cast_secs == 10,
            c.settle_secs == 3,
            c.post_catch_ms == 1500,
            c.cast_keys@ == seq!['1'],
            c.lure_key == '3',
            !c.skip_lure,
            c.model@ == "models/bobber_z4_10v3.xml"@,
            c.mouse_park == (Point { x: 100_000, y: 500_000 }),
            c.lure_icon.is_some(),
            c.lure_icon.unwrap()@ == "icons/lure_2560x1440.png"@,
            c.min_neighbors == 2,
            c.stability_ms == 500,
            c.flicker_ms == 250,
            c.stability_radius == 40_000,
            c.lure_threshold_ppm == 700_000,
            c.backend == DetectorBackend::Nn,
            c.target_fps == 10,
            c.nn_model@ == "models/bobber.onnx"@,
            c.nn_input_size == 960,
            c.nn_conf_threshold_ppm == 250_000,
            c.nn_iou_threshold_ppm == 450_000,
            c.roi == Some(Roi { x: 0, y: 0, w: 1_000_000, h: 500_000 }),
    {
        Config {
            initializing_secs: 10,
            fishing_duration_secs: 30,
            lure_cast_secs: 10,
            settle_secs: 3,
            post_catch_ms: 1500,
            cast_keys: vec!['1'],
            lure_key: '3',
            skip_lure: false,
            model: String::from_str("models/bobber_z4_10v3.xml"),
            mouse_park: Point { x: 100_000, y: 500_000 },
            lure_icon: Some(String::from_str("icons/lure_2560x1440.png")),
            min_neighbors: 2,
            stability_ms: 500,
            flicker_ms: 250,
            stability_radius: 40_000,
            lure_threshold_ppm: 700_000,
            backend: DetectorBackend::Nn,
            target_fps: 10,
            nn_model: String::from_str("models/bobber.onnx"),
            nn_input_size: 960,
            nn_conf_threshold_ppm: 250_000,
            nn_iou_threshold_ppm: 450_000,
            roi: Some(Roi { x: 0, y: 0, w: 1_000_000, h: 500_000 }),
        }
    }
}

} // verus!
