use vstd::prelude::*;

verus! {

/// Width of a canonical landscape bitmap (height of a portrait one).
pub const CANONICAL_LONG_SIDE: usize = 1280;

/// Height of a canonical landscape bitmap (width of a portrait one).
pub const CANONICAL_SHORT_SIDE: usize = 720;

/// Bytes per pixel of every bitmap (BGRA).
pub const BYTES_PER_PIXEL: usize = 4;

/// Size of the little-endian length header in front of each payload.
pub const HEADER_SIZE: usize = 4;

/// Upper bound on the size of a framed payload, header included (512 KiB).
pub const MAX_PAYLOAD_SIZE: usize = 524288;

/// One captured image: BGRA pixels, its dimensions and an optional
/// frames-per-second sample.
pub struct FrameCaptureData {
    pub data: Vec<u8>,
    pub width: usize,
    pub height: usize,
    pub fps: Option<usize>,
}

/// The two working resolutions: 1280x720 (landscape) and 720x1280 (portrait).
pub open spec fn is_canonical_size(width: int, height: int) -> bool {
    (width == CANONICAL_LONG_SIDE && height == CANONICAL_SHORT_SIDE)
        || (width == CANONICAL_SHORT_SIDE && height == CANONICAL_LONG_SIDE)
}

/// The canonical resolution that a bitmap of the given size is scaled to.
pub open spec fn spec_target_size(width: int, height: int) -> (usize, usize) {
    if width > height {
        (CANONICAL_LONG_SIDE, CANONICAL_SHORT_SIDE)
    } else {
        (CANONICAL_SHORT_SIDE, CANONICAL_LONG_SIDE)
    }
}

impl FrameCaptureData {
    /// The pixel buffer holds exactly four bytes for each pixel.
    pub open spec fn well_formed(&self) -> bool {
        self.data@.len() == self.width * self.height * BYTES_PER_PIXEL
    }

    pub open spec fn is_canonical(&self) -> bool {
        is_canonical_size(self.width as int, self.height as int)
    }

    /// A landscape capture is wider than it is tall.
    pub open spec fn is_landscape(&self) -> bool {
        self.width > self.height
    }
}

} // verus!
