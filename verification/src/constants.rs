//! Fixed parameters of the display and of the audio pipeline.

use vstd::prelude::*;

verus! {

/// Horizontal extent of the display in pixels; x coordinates run in 0..X_MAX.
pub const X_MAX: u16 = 480;

/// Vertical extent of the display in pixels; y coordinates run in 0..Y_MAX.
pub const Y_MAX: u16 = 272;

/// Number of pixels in the framebuffer.
pub const PIXEL_COUNT: usize = 480 * 272;

/// Number of magnitude buckets in a spectrum.
pub const SPECTRUM_LEN: usize = 16;

/// Number of samples one batch read pulls from the sample source.
pub const BATCH_LEN: usize = 200;

/// 16-bit packed colors used by the visualizers.
pub const BLACK: u16 = 0x0000;

pub const WHITE: u16 = 0xFFFF;

pub const ORANGE: u16 = 0xFC00;

pub const RED: u16 = 0xF800;

pub const GREEN: u16 = 0x07E0;

pub const BLUE: u16 = 0x001F;

/// Width in pixels of one spectrum bucket's bar.
pub const BUCKET_WIDTH: u16 = 30;

/// Fixed center of the energy visualizer's circle.
pub const CIRCLE_X: u16 = 240;

pub const CIRCLE_Y: u16 = 131;

} // verus!
