//! Frame conversion and adaptive delivery for a screen-to-device streaming bridge.
//!
//! Raw captured bitmaps are routed to a canonical resolution, compressed to JPEG
//! (rotated when the capture was landscape), framed with a little-endian length
//! header, and handed to a transport consumer through single-slot queues that
//! shed load instead of blocking. A quality controller steps the JPEG quality
//! along a fixed ladder according to the measured throughput.

pub mod frame;
pub mod route;
pub mod payload;
pub mod quality;
pub mod resize;
pub mod encode;
pub mod slot;
pub mod context;
pub mod intake;
pub mod stats;
