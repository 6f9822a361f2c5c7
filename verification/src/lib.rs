//! Geometry engine for guided tours inside an editor: anchored placement of a
//! popup beside a target rectangle, and a multi-region focus compositor that
//! keeps cut-out rectangles, corner radii and decorative overlays in step with
//! the targets they follow.
//!
//! All coordinates are integers on the host's grid. Contracts are stated over
//! the mathematical models [`geometry::Vector`] and [`geometry::Rectangle`].

pub mod anchor;
pub mod compositor;
pub mod geometry;
pub mod guard;
pub mod placer;
pub mod popup;
