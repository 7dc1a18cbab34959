use vstd::prelude::*;

verus! {

/// The smallest band height ever used: rows never get thinner than this,
/// whatever the canvas height and gap work out to.
pub const MIN_BAND_HEIGHT: u32 = 100;

/// Selects the trade-offs of one run: how many rows the canvas is divided
/// into (which fixes the band height) and how expensive the resampling is.
#[derive(Clone, Copy, PartialEq, Eq, Structural, Debug)]
pub enum RunMode {
    /// Fast resampling, six-row bands.
    Realtime,
    /// High-quality resampling, ten-row bands.
    Batch,
}

/// The fixed height every source image is resized to: the canvas height is
/// divided into a fixed number of rows (ten in batch mode, six in realtime
/// mode) separated by gaps, and the result is floored at `MIN_BAND_HEIGHT`.
pub open spec fn spec_band_height(mode: RunMode, height: u32, gap: u32) -> u32 {
    let (rows, gaps) = match mode {
        RunMode::Realtime => (6int, 5int),
        RunMode::Batch => (10int, 9int),
    };
    let raw = if height >= gaps * gap {
        (height - gaps * gap) / rows
    } else {
        0int
    };
    if raw < MIN_BAND_HEIGHT as int {
        MIN_BAND_HEIGHT
    } else {
        raw as u32
    }
}

/// Computes the band height for a run mode, canvas height and gap.
pub fn band_height(mode: RunMode, height: u32, gap: u32) -> (r: u32)
    ensures
        r == spec_band_height(mode, height, gap),
        r >= MIN_BAND_HEIGHT,
{
    let (rows, gaps): (u64, u64) = match mode {
        RunMode::Realtime => (6, 5),
        RunMode::Batch => (10, 9),
    };
    let total: u64 = gaps * (gap as u64);
    let raw: u64 = if (height as u64) >= total {
        ((height as u64) - total) / rows
    } else {
        0
    };
    if raw < MIN_BAND_HEIGHT as u64 {
        MIN_BAND_HEIGHT
    } else {
        raw as u32
    }
}

/// The geometry of one run: canvas size, inter-image gap, and the derived
/// band height.
pub struct PosterConfig {
    /// Canvas width in pixels.
    pub width: u32,
    /// Canvas height in pixels.
    pub height: u32,
    /// Horizontal and vertical gap between placed images, in pixels.
    pub gap: u32,
    /// The run mode this configuration was derived for.
    pub mode: RunMode,
    /// Height every image is resized to; derived from the fields above.
    pub band_height: u32,
}

impl PosterConfig {
    /// A configuration is well formed when its band height is the one
    /// derived from its mode, height and gap.
    pub open spec fn wf(self) -> bool {
        &&& self.band_height == spec_band_height(self.mode, self.height, self.gap)
        &&& self.band_height >= MIN_BAND_HEIGHT
    }

    /// Builds the configuration for a run, deriving the band height.
    pub fn new(width: u32, height: u32, gap: u32, mode: RunMode) -> (r: PosterConfig)
        ensures
            r.wf(),
            r.width == width,
            r.height == height,
            r.gap == gap,
            r.mode == mode,
    {
        let bh = band_height(mode, height, gap);
        PosterConfig { width, height, gap, mode, band_height: bh }
    }
}

} // verus!
