//! A retained-mode widget composition engine.
//!
//! The engine lays out, renders, and routes input through a tree of widget
//! values.  Layout is a two-pass flexible algorithm (fixed children are
//! measured first, then leftover space is split evenly among expanding
//! children); rendering and hit-testing are layered, so overlays such as
//! dropdown popups draw and receive input ahead of whatever sits behind
//! them; keyboard focus is routed through per-container focus indices that
//! are updated by a demand-focus protocol; and a local-state adapter lets a
//! dropdown keep a private `open` flag across frames even though the
//! subtree built from that flag changes shape when the popup appears.
//!
//! The platform boundary (window events, text measurement, executing the
//! produced draw commands) lives outside this crate; the engine works on
//! plain values: integer geometry, measured text sizes, and draw-command
//! lists.

use vstd::prelude::*;

pub mod button;
pub mod cursor;
pub mod drawables;
pub mod dropdown;
pub mod flex;
pub mod geom;
pub mod hit;
pub mod input;
pub mod keyboard;
pub mod laws;
pub mod layout;
pub mod measure;
pub mod or;
pub mod pass;
pub mod popup;
pub mod render;
pub mod textbox;
pub mod theme;
pub mod widget;

verus! {

/// The root environment token handed to the widget tree by the platform
/// boundary.
pub struct Runtime {}

} // verus!
