//! Adaptive status/hint bar for an interactive MQTT terminal client.
//!
//! On every refresh the footer shows context-sensitive key hints for the
//! element in focus and, when horizontal space permits, a right-aligned
//! version/broker identity badge that degrades gracefully as space shrinks.

pub mod footer;
pub mod fragment;
pub mod hints;
pub mod width;

pub use footer::{Footer, FooterPlan, OverlayPlan};
pub use fragment::{FocusMode, FragStyle, Fragment, HostQuery};
pub use hints::build_hints;
