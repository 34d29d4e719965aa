//! Per-frame entity-state resolution and overlay rendering for a heads-up
//! visualization of dynamic actors.
//!
//! Once per tick a snapshot of render-ready actor records is built from a
//! plain-value picture of the external entity graph; a render pass then turns
//! the snapshot into a list of drawing commands, resolving a visual profile
//! per actor through a fallback chain of configuration selectors.

pub mod actor;
pub mod color;
pub mod config;
pub mod draw;
pub mod esp;
pub mod geom;
pub mod render;
pub mod selector;
pub mod text;
pub mod toggle;
pub mod view;
