//! A small interactive-application shell: a scene lifecycle manager plus
//! animated UI widgets (buttons, image covers) driven once per frame.
//!
//! The library is organised around two coupled state machines:
//!
//! * the widget transition engine ([`elements::buttons`]), which moves a
//!   button's visible attributes between three interaction tiers (idle,
//!   hover, pressed) either instantly or by linear interpolation over time;
//! * the scene manager ([`elements::scenes`]), which owns a registry of
//!   named scenes, drives exactly one current scene per tick, and interprets
//!   the command the scene hands back (stay, jump to a named scene, exit).
//!
//! Window creation, texture loading, input polling and draw-call issuing are
//! a host's business: the host hands the library plain values (elapsed
//! milliseconds, pointer position, screen dimensions, measured text widths)
//! and receives plain draw descriptions back.
//!
//! All geometry is integer: coordinates are `i64` values clamped to
//! [`elements::COORD_LIMIT`], and interpolation fractions advance in units
//! of 1/[`elements::FRACTION_ONE`].

pub mod elements;
pub mod scenes;
