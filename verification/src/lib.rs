//! Autofisher-3000: the verified core of a vision-based fishing bot.
//!
//! The fishing logic is a pure state machine ([`state::step`]) with no I/O. The
//! application shell wires portal capture, detection and input around it; the
//! decisions it makes between those calls live here too.
pub mod capture;
pub mod config;
pub mod controller;
pub mod detect;
pub mod frame;
pub mod laws;
pub mod nn;
pub mod state;
