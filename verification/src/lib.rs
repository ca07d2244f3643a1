//! A virtualized uniform-height list layout engine, together with the small
//! amount of editor-global state that its host application keeps around it.
//!
//! The engine renders only the slice of a large collection that intersects a
//! scrollable viewport: from the current scroll offset, the viewport height
//! and one measured item height it computes the minimal contiguous index
//! range that must be materialized, resolves pending autoscroll requests, and
//! clamps the offset to the valid range. All coordinates are integer content
//! units.

pub mod flavours;
pub mod geometry;
pub mod helix;
pub mod laws;
pub mod list;
pub mod modal;
pub mod mode_indicator;
pub mod settings;
