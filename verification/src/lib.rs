//! Input-capture coordination core.
//!
//! Captures raw, OS-wide mouse and keyboard events handed in by an outside
//! hook, applies rate limiting and de-duplication, maintains a coordinated
//! suppression mode with an emergency-stop override, and decides which
//! filtered events are forwarded to a presentation layer. The OS hook and the
//! presentation channel themselves are outside collaborators: this crate only
//! consumes raw events as values and reports what must be published.

pub mod capture;
pub mod decimal;
pub mod keys;
pub mod laws;
pub mod mouse_control;
