use vstd::prelude::*;
use crate::frame::{
    is_canonical_size, spec_target_size, CANONICAL_LONG_SIDE, CANONICAL_SHORT_SIDE,
};

verus! {

/// Where the intake stage sends a raw bitmap.
#[derive(Clone, Copy, Debug, PartialEq, Eq, Structural)]
pub enum Route {
    /// Already canonical: straight to the encoder.
    Encode,
    /// Any other size: to the resizer first.
    Resize,
}

/// The stage that a bitmap of the given size goes to.
pub open spec fn spec_route(width: int, height: int) -> Route {
    if is_canonical_size(width, height) {
        Route::Encode
    } else {
        Route::Resize
    }
}

/// Chooses the next stage for a bitmap of the given size. Canonical bitmaps
/// bypass the resizer; every other size goes through it.
pub fn route(width: usize, height: usize) -> (r: Route)
    ensures
        r == spec_route(width as int, height as int),
{
    if (width == CANONICAL_LONG_SIDE && height == CANONICAL_SHORT_SIDE) || (width
        == CANONICAL_SHORT_SIDE && height == CANONICAL_LONG_SIDE) {
        Route::Encode
    } else {
        Route::Resize
    }
}

/// The canonical resolution for a bitmap of the given size: landscape when it
/// is wider than tall, portrait otherwise.
pub fn target_size(width: usize, height: usize) -> (r: (usize, usize))
    ensures
        r == spec_target_size(width as int, height as int),
{
    if width > height {
        (CANONICAL_LONG_SIDE, CANONICAL_SHORT_SIDE)
    } else {
        (CANONICAL_SHORT_SIDE, CANONICAL_LONG_SIDE)
    }
}

/// A landscape capture is rotated after compression, since the receiving
/// display is mounted in portrait orientation.
pub fn needs_rotation(width: usize, height: usize) -> (r: bool)
    ensures
        r == (width > height),
{
    width > height
}

/// Canonicalization: a bitmap whose sides differ is scaled to the landscape
/// resolution when it is wider than tall and to the portrait one otherwise,
/// and a bitmap that is already canonical is never sent to the resizer.
pub proof fn lemma_canonicalization(width: usize, height: usize)
    ensures
        width != height ==> spec_target_size(width as int, height as int) == (if width > height {
            (1280usize, 720usize)
        } else {
            (720usize, 1280usize)
        }),
        is_canonical_size(width as int, height as int) ==> spec_route(width as int, height as int)
            == Route::Encode,
        is_canonical_size(spec_target_size(width as int, height as int).0 as int, spec_target_size(width as int, height as int).1 as int),
{
}

} // verus!
