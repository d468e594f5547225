use vstd::prelude::*;
use crate::frame::{spec_target_size, FrameCaptureData, BYTES_PER_PIXEL};
use crate::route::target_size;

verus! {

#[verifier::external_type_specification]
#[verifier::external_body]
pub struct ExFirResizer(fast_image_resize::Resizer);

/// Relies on `fast_image_resize::Resizer::new`, which builds a resizer for the
/// CPU extensions at hand and cannot fail.
pub assume_specification[ fast_image_resize::Resizer::new ]() -> fast_image_resize::Resizer;

/// The BGRA pixels that nearest-neighbour resampling of a `src_width` by
/// `src_height` bitmap to `dst_width` by `dst_height` produces.
pub uninterp spec fn nearest_resized(
    src: Seq<u8>,
    src_width: nat,
    src_height: nat,
    dst_width: nat,
    dst_height: nat,
) -> Seq<u8>;

/// Relies on fast_image_resize: `images::Image::from_vec_u8` takes the source
/// pixels, `images::Image::new` allocates a zeroed destination of
/// `dst_width * dst_height * 4` bytes, `Resizer::resize` with
/// `ResizeAlg::Nearest` and no cropping fills it, and `Image::into_vec` hands the
/// destination buffer back. `None` when fast_image_resize reports an error,
/// which with `U8x4` pixels and no cropping happens only for a source buffer
/// shorter than its sides ask for.
/// Both image constructors multiply the sides by four as `usize`, hence the bounds.
#[verifier::external_body]
fn resize_nearest(
    resizer: &mut fast_image_resize::Resizer,
    src: Vec<u8>,
    src_width: u32,
    src_height: u32,
    dst_width: u32,
    dst_height: u32,
) -> (r: Option<Vec<u8>>)
    requires
        src_width * src_height * 4 <= usize::MAX,
        dst_width * dst_height * 4 <= usize::MAX,
    ensures
        src@.len() >= src_width * src_height * 4 ==> r is Some,
        r matches Some(v) ==> {
            &&& v@ == nearest_resized(src@, src_width as nat, src_height as nat, dst_width as nat, dst_height as nat)
            &&& v@.len() == dst_width * dst_height * 4
        },
{
    let pixel = fast_image_resize::PixelType::U8x4;
    let src = fast_image_resize::images::Image::from_vec_u8(src_width, src_height, src, pixel).ok()?;
    let mut dst = fast_image_resize::images::Image::new(dst_width, dst_height, pixel);
    let options = fast_image_resize::ResizeOptions {
        algorithm: fast_image_resize::ResizeAlg::Nearest,
        cropping: fast_image_resize::SrcCropping::None,
        mul_div_alpha: false,
    };
    resizer.resize(&src, &mut dst, &options).ok()?;
    Some(dst.into_vec())
}

/// Why a bitmap could not be resized.
#[derive(Clone, Copy, Debug, PartialEq, Eq, Structural)]
pub enum ResizeError {
    /// The buffer does not hold four bytes per pixel, or a side exceeds `u32`.
    InvalidBitmap,
    /// The resampler reported an error.
    Failed,
}

/// A bitmap is accepted by the resizer when its buffer holds four bytes per
/// pixel and both sides fit in a `u32`.
pub open spec fn resizable(frame: FrameCaptureData) -> bool {
    &&& frame.well_formed()
    &&& frame.width <= u32::MAX
    &&& frame.height <= u32::MAX
}

/// Scales bitmaps to the canonical resolution.
pub struct FrameResizer {
    inner: fast_image_resize::Resizer,
}

impl FrameResizer {
    pub fn new() -> (r: Self) {
        FrameResizer { inner: fast_image_resize::Resizer::new() }
    }

    /// Scales the bitmap, by nearest-neighbour resampling of the full frame, to
    /// 1280x720 when it is wider than tall and to 720x1280 otherwise. The pixel
    /// buffer is freshly allocated; the fps sample is carried over.
    pub fn resize(&mut self, frame: FrameCaptureData) -> (r: Result<FrameCaptureData, ResizeError>)
        ensures
            r == Err::<FrameCaptureData, ResizeError>(ResizeError::InvalidBitmap) <==> !resizable(frame),
            resizable(frame) ==> r is Ok,
            r matches Ok(out) ==> {
                &&& (out.width, out.height) == spec_target_size(frame.width as int, frame.height as int)
                &&& out.is_canonical()
                &&& out.well_formed()
                &&& out.data@ == nearest_resized(frame.data@, frame.width as nat, frame.height as nat, out.width as nat, out.height as nat)
                &&& out.fps == frame.fps
            },
    {
        if frame.width > u32::MAX as usize || frame.height > u32::MAX as usize {
            return Err(ResizeError::InvalidBitmap);
        }
        let len: usize = frame.data.len();
        let pixels = frame.width.checked_mul(frame.height);
        let expected = match pixels {
            Some(p) => p.checked_mul(BYTES_PER_PIXEL),
            None => None,
        };
        match expected {
            Some(n) => {
                if n != len {
                    return Err(ResizeError::InvalidBitmap);
                }
            },
            None => {
                proof {
                    assert(frame.width * frame.height * 4 > usize::MAX) by (nonlinear_arith)
                        requires
                            frame.width * frame.height > usize::MAX
                                || (frame.width * frame.height) * 4 > usize::MAX,
                    ;
                }
                return Err(ResizeError::InvalidBitmap);
            },
        }
        let (width, height) = target_size(frame.width, frame.height);
        let fps = frame.fps;
        match resize_nearest(
            &mut self.inner,
            frame.data,
            frame.width as u32,
            frame.height as u32,
            width as u32,
            height as u32,
        ) {
            Some(data) => Ok(FrameCaptureData { data, width, height, fps }),
            None => Err(ResizeError::Failed),
        }
    }
}

} // verus!
