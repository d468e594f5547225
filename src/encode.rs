use vstd::prelude::*;
use crate::frame::{FrameCaptureData, BYTES_PER_PIXEL, CANONICAL_LONG_SIDE, CANONICAL_SHORT_SIDE};
use crate::route::needs_rotation;
use crate::payload::{
    frame_payload, framed, payload_accepted, payload_error, EncodeError, FrameConvertedData,
};
use crate::quality::is_ladder_quality;
use crate::frame::MAX_PAYLOAD_SIZE;

verus! {

/// How one canonical bitmap is to be encoded: compressed at its own size
/// (rows of `width * 4` BGRA bytes) with 2x2 chroma subsampling and no
/// optimization, at `quality`; rotated by 270 degrees after compression when
/// `rotate` holds.
#[derive(Clone, Copy, Debug, PartialEq, Eq, Structural)]
pub struct EncodeJob {
    pub width: usize,
    pub height: usize,
    pub quality: i32,
    pub rotate: bool,
    pub fps: Option<usize>,
}

/// What follows the compression of a bitmap.
pub enum CodecStep {
    /// Rotate these JPEG bytes by 270 degrees, then frame the result.
    Rotate(Vec<u8>),
    /// The payload is ready for transport.
    Deliver(FrameConvertedData),
}

/// Plans the encoding of a bitmap at the given quality. Only a canonical bitmap
/// whose buffer holds four bytes per pixel is accepted, and only a quality of
/// the ladder; a landscape bitmap is marked for rotation, a portrait one is not.
pub fn plan_encode(frame: &FrameCaptureData, quality: i32) -> (r: Result<EncodeJob, EncodeError>)
    ensures
        r is Err <==> !(frame.is_canonical() && frame.well_formed() && is_ladder_quality(quality)),
        r matches Err(e) ==> e == if frame.is_canonical() && frame.well_formed() {
            EncodeError::InvalidQuality
        } else {
            EncodeError::InvalidBitmap
        },
        r matches Ok(job) ==> job == (EncodeJob {
            width: frame.width,
            height: frame.height,
            quality,
            rotate: frame.is_landscape(),
            fps: frame.fps,
        }),
{
    let canonical = (frame.width == CANONICAL_LONG_SIDE && frame.height == CANONICAL_SHORT_SIDE)
        || (frame.width == CANONICAL_SHORT_SIDE && frame.height == CANONICAL_LONG_SIDE);
    if !canonical {
        return Err(EncodeError::InvalidBitmap);
    }
    assert(frame.width * frame.height * BYTES_PER_PIXEL == 3686400) by (nonlinear_arith)
        requires
            (frame.width == 1280 && frame.height == 720) || (frame.width == 720 && frame.height
                == 1280),
    ;
    if frame.data.len() != CANONICAL_LONG_SIDE * CANONICAL_SHORT_SIDE * BYTES_PER_PIXEL {
        return Err(EncodeError::InvalidBitmap);
    }
    if !(quality == 40 || quality == 60 || quality == 70 || quality == 80) {
        return Err(EncodeError::InvalidQuality);
    }
    Ok(EncodeJob {
        width: frame.width,
        height: frame.height,
        quality,
        rotate: needs_rotation(frame.width, frame.height),
        fps: frame.fps,
    })
}

/// Whether compressed bytes fit the 512 KiB scratch bound of the codec and
/// are not empty.
pub open spec fn codec_output_accepted(jpeg: Seq<u8>) -> bool {
    0 < jpeg.len() <= MAX_PAYLOAD_SIZE
}

/// Takes the JPEG bytes that compression produced for `job`. Empty output, or
/// output beyond the 512 KiB scratch bound, is refused. A job marked for
/// rotation never is framed here: its bytes go on to the rotation. Any other
/// job is framed at once.
pub fn after_compress(job: &EncodeJob, jpeg: Vec<u8>) -> (r: Result<CodecStep, EncodeError>)
    ensures
        job.rotate ==> {
            &&& r is Ok <==> codec_output_accepted(jpeg@)
            &&& r matches Err(e) ==> e == if jpeg@.len() == 0 {
                EncodeError::EmptyCodecOutput
            } else {
                EncodeError::PayloadTooLarge
            }
            &&& r matches Ok(step) ==> (step matches CodecStep::Rotate(v) && v@ == jpeg@)
        },
        !job.rotate ==> {
            &&& r is Ok <==> payload_accepted(jpeg@, job.quality)
            &&& r matches Err(e) ==> e == payload_error(jpeg@, job.quality)
            &&& r matches Ok(step) ==> (step matches CodecStep::Deliver(p) && p.bytes() == framed(jpeg@)
                && p.spec_quality() == job.quality && p.spec_fps() == job.fps)
        },
{
    if job.rotate {
        if jpeg.len() == 0 {
            Err(EncodeError::EmptyCodecOutput)
        } else if jpeg.len() > MAX_PAYLOAD_SIZE {
            Err(EncodeError::PayloadTooLarge)
        } else {
            Ok(CodecStep::Rotate(jpeg))
        }
    } else {
        match frame_payload(jpeg.as_slice(), job.quality, job.fps) {
            Ok(p) => Ok(CodecStep::Deliver(p)),
            Err(e) => Err(e),
        }
    }
}

/// Takes the JPEG bytes that the rotation produced for `job` and frames them.
pub fn after_rotate(job: &EncodeJob, jpeg: Vec<u8>) -> (r: Result<FrameConvertedData, EncodeError>)
    ensures
        r is Ok <==> payload_accepted(jpeg@, job.quality),
        r matches Err(e) ==> e == payload_error(jpeg@, job.quality),
        r matches Ok(p) ==> {
            &&& p.bytes() == framed(jpeg@)
            &&& p.spec_quality() == job.quality
            &&& p.spec_fps() == job.fps
        },
{
    frame_payload(jpeg.as_slice(), job.quality, job.fps)
}

} // verus!
