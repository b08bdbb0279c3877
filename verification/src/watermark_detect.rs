//! Where the fixed-pattern watermark sits in a generated image: a size and
//! margin chosen from the image dimensions, anchored at the bottom-right
//! corner.  Reading and repainting the pixels happens outside.

use vstd::prelude::*;
use crate::imaging::sat_sub;

verus! {

/// A detected or manually chosen watermark region.
pub struct WatermarkInfo {
    pub detected: bool,
    pub watermark_size: u32,
    pub region_x: u32,
    pub region_y: u32,
    pub margin_right: u32,
    pub margin_bottom: u32,
}

/// How a watermark removal chooses its region.
pub struct RemoveParams {
    pub auto_detect: bool,
    pub manual_size: Option<u32>,
}

/// Watermark removal detects the region automatically unless told
/// otherwise.
pub fn default_auto_detect() -> (r: bool)
    ensures
        r,
{
    true
}

impl Default for RemoveParams {
    /// Automatic detection, no manual size.
    fn default() -> (r: Self)
        ensures
            r.auto_detect,
            r.manual_size is None,
    {
        RemoveParams { auto_detect: true, manual_size: None }
    }
}

/// What a watermark removal produced.
pub struct RemoveResult {
    pub output_path: String,
    pub original_size: u64,
    pub processed_size: u64,
    pub watermark_detected: bool,
    pub watermark_info: Option<WatermarkInfo>,
}

/// The margin that goes with a watermark size: 64 pixels for the large
/// watermark, 32 for the rest.
pub open spec fn spec_margin_for(size: u32) -> int {
    if size == 96 {
        64
    } else {
        32
    }
}

/// The watermark region for a manually given size: anchored at the
/// bottom-right corner, the size-plus-margin backed off each dimension,
/// stopping at zero.
pub fn calculate_watermark_params(width: u32, height: u32, size: u32) -> (r: WatermarkInfo)
    ensures
        r.detected,
        r.watermark_size == size,
        r.margin_right as int == spec_margin_for(size),
        r.margin_bottom as int == spec_margin_for(size),
        r.region_x as int == sat_sub(width as int, size as int + spec_margin_for(size)),
        r.region_y as int == sat_sub(height as int, size as int + spec_margin_for(size)),
{
    let margin: u32 = if size == 96 {
        64
    } else {
        32
    };
    let region_x = if size <= u32::MAX - margin && width >= size + margin {
        width - (size + margin)
    } else {
        0
    };
    let region_y = if size <= u32::MAX - margin && height >= size + margin {
        height - (size + margin)
    } else {
        0
    };
    WatermarkInfo {
        detected: true,
        watermark_size: size,
        region_x,
        region_y,
        margin_right: margin,
        margin_bottom: margin,
    }
}

/// The watermark region detected from the image dimensions: images larger
/// than 1024 pixels in both dimensions carry the 96-pixel watermark with a
/// 64-pixel margin, all others the 48-pixel watermark with a 32-pixel
/// margin.
pub fn detect_watermark_params(width: u32, height: u32) -> (r: WatermarkInfo)
    ensures
        r.detected,
        r.watermark_size == (if width > 1024 && height > 1024 { 96u32 } else { 48u32 }),
        r.margin_right as int == spec_margin_for(r.watermark_size),
        r.margin_bottom as int == spec_margin_for(r.watermark_size),
        r.region_x as int == sat_sub(
            width as int,
            r.watermark_size as int + spec_margin_for(r.watermark_size),
        ),
        r.region_y as int == sat_sub(
            height as int,
            r.watermark_size as int + spec_margin_for(r.watermark_size),
        ),
{
    let size: u32 = if width > 1024 && height > 1024 {
        96
    } else {
        48
    };
    calculate_watermark_params(width, height, size)
}

} // verus!
