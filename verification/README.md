# autofisher

The verified core of Autofisher-3000, a vision-based World of Warcraft fishing bot
for GNOME / Wayland.

- `src/` — the library, verified with Verus:
  - `state.rs` — the fishing loop as a pure state machine (`step`), with its exact
    specification (`spec_step`); time is a millisecond clock, coordinates are in
    thousandths of a pixel (box and frame centers are exact).
  - `laws.rs` — properties of the loop proved for every input (allowed transitions,
    waiting until deadlines, the stability / flicker rules, lure and cast rules).
  - `controller.rs` — the controller's per-tick report (missed bite, fresh cast).
  - `capture.rs` — the GStreamer pipeline description and the capture loop's bookkeeping.
  - `config.rs`, `frame.rs` — configuration (fractions in millionths) and frames.
  - `detect.rs`, `nn.rs` — detector geometry: box centers, the lure template's scale
    plan, the NN crop rectangle, letterbox layout and output-head layout.
- `app/` — the program around it: portal session and input (ashpd), capture and
  detection (OpenCV, tract), the controller loop, CLI and a serde form of the config.
- `tests/` — the state-machine scenarios and tests of every module.
