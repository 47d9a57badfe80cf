//! A fixed "DJ deck" control panel.
//!
//! The panel is a static illustration: four knobs, two faders, a title bar
//! and a pad grid, painted once onto a 555x210 raster surface. This crate
//! holds the deterministic part of that program: the layout is produced as a
//! sequence of primitive paint operations with exact integer coordinates
//! (in half-pixel units), and pointer events are turned into the log records
//! a diagnostic sink receives. A thin host shell interprets the paint
//! operations against a real 2D drawing context and wires up the listeners.

pub mod layout;
pub mod paint;
pub mod pointer;

use vstd::prelude::*;

verus! {

/// The pixel width every rendered frame has.
pub const SURFACE_WIDTH: u32 = 555;

/// The pixel height every rendered frame has.
pub const SURFACE_HEIGHT: u32 = 210;

} // verus!
