//! An interactive vector-painting surface: a scene of pre-built decorative
//! vector shapes composed alongside freehand strokes drawn live with a
//! pointing device, re-rendered every frame under a uniform scale transform
//! tied to the surrounding window's width.
//!
//! The windowing host, the rasterizer and the widget toolkit are outside
//! collaborators: this crate models geometry as plain command lists over
//! integer coordinates in logical units, and the per-frame render procedure
//! returns the ordered list of draw calls for the host to paint.

pub mod controller;
pub mod geometry;
pub mod scene;
pub mod style;
pub mod traffic_lights;
