//! Builds a poster-wall raster from a stream of decoded images: each
//! image is resized to a fixed band height preserving its aspect ratio,
//! packed left-to-right into rows with a gap and a brick-like stagger on
//! alternate rows, alpha-composited onto a shared canvas with clipping at
//! the canvas bounds, and the finished raster can be rebuilt from a
//! bounded palette and re-compressed losslessly.
//!
//! Layout is a sequential, deterministic pre-pass; its slots never
//! overlap, so compositing work can run in any order afterwards.

use vstd::prelude::*;

mod canvas;
mod config;
mod errors;
mod layout;
mod quant;
mod render;

pub use canvas::Canvas;

pub use config::band_height;
pub use config::PosterConfig;
pub use config::RunMode;
pub use errors::PosterError;
pub use quant::quantized_png;
pub use quant::remap_indexed;
pub use quant::Color;
pub use layout::allocate;
pub use layout::plan_layout;
pub use layout::calculate_new_dimensions;
pub use layout::should_stop;
pub use layout::Cursor;
pub use layout::PlacementSlot;
pub use layout::Scheduled;
pub use layout::SourceItem;
pub use render::composite;
pub use render::render_poster;
pub use render::DecodedImage;
pub use render::SourceImage;

verus! {

} // verus!
