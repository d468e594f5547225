use vstd::prelude::*;
use crate::frame::{HEADER_SIZE, MAX_PAYLOAD_SIZE};
use crate::quality::is_ladder_quality;

verus! {

/// The four little-endian bytes of `n` (taken modulo 2^32).
pub open spec fn le_u32_bytes(n: nat) -> Seq<u8> {
    seq![
        (n % 256) as u8,
        (n / 256 % 256) as u8,
        (n / 256 / 256 % 256) as u8,
        (n / 256 / 256 / 256 % 256) as u8,
    ]
}

/// The unsigned integer that four little-endian bytes encode.
pub open spec fn le_u32_value(b: Seq<u8>) -> nat
    recommends
        b.len() >= 4,
{
    (b[0] + 256 * (b[1] + 256 * (b[2] + 256 * b[3]))) as nat
}

/// The wire form of a codec payload: its total length, header included, as a
/// little-endian `u32`, followed by the payload itself.
pub open spec fn framed(codec: Seq<u8>) -> Seq<u8> {
    le_u32_bytes((codec.len() + HEADER_SIZE) as nat) + codec
}

/// A buffer that carries its own total length in its first four bytes, holds
/// at least one codec byte after them and stays within the payload bound.
pub open spec fn is_framed(b: Seq<u8>) -> bool {
    &&& HEADER_SIZE < b.len() <= MAX_PAYLOAD_SIZE
    &&& le_u32_value(b.subrange(0, 4)) == b.len()
}

/// Why a frame could not be turned into a payload.
#[derive(Clone, Copy, Debug, PartialEq, Eq, Structural)]
pub enum EncodeError {
    /// The bitmap is not canonical or its buffer does not hold four bytes per pixel.
    InvalidBitmap,
    /// The codec output plus its header exceeds the payload bound.
    PayloadTooLarge,
    /// The codec produced no bytes.
    EmptyCodecOutput,
    /// The quality is not a level of the quality ladder.
    InvalidQuality,
}

/// A framed payload ready for transport, with the quality it was encoded at and
/// the frames-per-second sample of its capture, if any.
pub struct FrameConvertedData {
    data: Vec<u8>,
    data_size: usize,
    quality: i32,
    fps: Option<usize>,
}

impl FrameConvertedData {
    #[verifier::type_invariant]
    pub(crate) closed spec fn inv(self) -> bool {
        &&& self.data_size == self.data@.len()
        &&& is_framed(self.data@)
        &&& is_ladder_quality(self.quality)
    }

    /// The bytes to send, header included.
    pub closed spec fn bytes(self) -> Seq<u8> {
        self.data@
    }

    pub closed spec fn spec_quality(self) -> i32 {
        self.quality
    }

    pub closed spec fn spec_fps(self) -> Option<usize> {
        self.fps
    }

    /// The bytes to send, header included.
    pub fn data(&self) -> (r: &[u8])
        ensures
            r@ == self.bytes(),
            is_framed(r@),
    {
        proof {
            use_type_invariant(self);
        }
        self.data.as_slice()
    }

    /// The total length of the payload, header included.
    pub fn data_size(&self) -> (r: usize)
        ensures
            r == self.bytes().len(),
            r == le_u32_value(self.bytes().subrange(0, 4)),
            HEADER_SIZE < r <= MAX_PAYLOAD_SIZE,
    {
        proof {
            use_type_invariant(self);
        }
        self.data_size
    }

    /// The codec quality the payload was encoded at.
    pub fn quality(&self) -> (r: i32)
        ensures
            r == self.spec_quality(),
            is_ladder_quality(r),
    {
        proof {
            use_type_invariant(self);
        }
        self.quality
    }

    /// The frames-per-second sample carried over from the capture.
    pub fn fps(&self) -> (r: Option<usize>)
        ensures
            r == self.spec_fps(),
    {
        self.fps
    }
}

/// A payload that meets its invariant is framed and carries a ladder quality.
pub(crate) proof fn lemma_inv_framed(p: FrameConvertedData)
    requires
        p.inv(),
    ensures
        is_framed(p.bytes()),
        is_ladder_quality(p.spec_quality()),
{
}

/// The header bytes decode to the number they encode, for any `u32`.
pub proof fn lemma_le_u32_round_trip(n: nat)
    requires
        n < 0x1_0000_0000,
    ensures
        le_u32_bytes(n).len() == 4,
        le_u32_value(le_u32_bytes(n)) == n,
{
    let q1 = n / 256;
    let q2 = q1 / 256;
    let q3 = q2 / 256;
    assert(n == n % 256 + 256 * q1);
    assert(q1 == q1 % 256 + 256 * q2);
    assert(q2 == q2 % 256 + 256 * q3);
    assert(q3 < 256);
    let b = le_u32_bytes(n);
    assert(b[0] == n % 256);
    assert(b[1] == q1 % 256);
    assert(b[2] == q2 % 256);
    assert(b[3] == q3);
}

/// Framing round trip: for a codec payload of length L whose frame fits the
/// bound, the first four bytes of the frame decode to L + 4 and the bytes from
/// offset 4 to L + 4 are the payload itself; a non-empty payload gives a
/// framed buffer.
pub proof fn lemma_framing_round_trip(codec: Seq<u8>)
    requires
        codec.len() + HEADER_SIZE <= MAX_PAYLOAD_SIZE,
    ensures
        framed(codec).len() == codec.len() + 4,
        le_u32_value(framed(codec).subrange(0, 4)) == codec.len() + 4,
        framed(codec).subrange(4, codec.len() + 4int) == codec,
        codec.len() > 0 ==> is_framed(framed(codec)),
{
    let f = framed(codec);
    lemma_le_u32_round_trip((codec.len() + 4) as nat);
    assert(f.subrange(0, 4) =~= le_u32_bytes((codec.len() + 4) as nat));
    assert(f.subrange(4, codec.len() + 4int) =~= codec);
}

/// Whether `frame_payload` accepts this codec output and quality.
pub open spec fn payload_accepted(codec: Seq<u8>, quality: i32) -> bool {
    &&& codec.len() > 0
    &&& codec.len() + HEADER_SIZE <= MAX_PAYLOAD_SIZE
    &&& is_ladder_quality(quality)
}

/// The error that `frame_payload` reports on an input it does not accept.
pub open spec fn payload_error(codec: Seq<u8>, quality: i32) -> EncodeError {
    if codec.len() == 0 {
        EncodeError::EmptyCodecOutput
    } else if codec.len() + HEADER_SIZE > MAX_PAYLOAD_SIZE {
        EncodeError::PayloadTooLarge
    } else {
        EncodeError::InvalidQuality
    }
}

/// Frames a codec payload: writes its total length, header included, as four
/// little-endian bytes and appends the payload. Fails when the codec output is
/// empty, when the frame would exceed the payload bound, or when the quality is
/// not a level of the ladder, in that order.
pub fn frame_payload(codec: &[u8], quality: i32, fps: Option<usize>) -> (r: Result<
    FrameConvertedData,
    EncodeError,
>)
    ensures
        r is Ok <==> payload_accepted(codec@, quality),
        r matches Err(e) ==> e == payload_error(codec@, quality),
        r matches Ok(p) ==> {
            &&& p.bytes() == framed(codec@)
            &&& p.spec_quality() == quality
            &&& p.spec_fps() == fps
        },
{
    if codec.len() == 0 {
        return Err(EncodeError::EmptyCodecOutput);
    }
    if codec.len() > MAX_PAYLOAD_SIZE - HEADER_SIZE {
        return Err(EncodeError::PayloadTooLarge);
    }
    if !(quality == 40 || quality == 60 || quality == 70 || quality == 80) {
        return Err(EncodeError::InvalidQuality);
    }
    let size: usize = codec.len() + HEADER_SIZE;
    let n: u32 = size as u32;
    let mut data: Vec<u8> = Vec::with_capacity(size);
    data.push((n % 256) as u8);
    data.push((n / 256 % 256) as u8);
    data.push((n / 256 / 256 % 256) as u8);
    data.push((n / 256 / 256 / 256 % 256) as u8);
    assert(data@ =~= le_u32_bytes(size as nat));
    let mut i: usize = 0;
    while i < codec.len()
        invariant
            i <= codec@.len(),
            data@ == le_u32_bytes(size as nat) + codec@.subrange(0, i as int),
        decreases codec@.len() - i,
    {
        data.push(codec[i]);
        assert(codec@.subrange(0, i + 1) =~= codec@.subrange(0, i as int).push(codec@[i as int]));
        i = i + 1;
    }
    assert(codec@.subrange(0, codec@.len() as int) =~= codec@);
    proof {
        lemma_framing_round_trip(codec@);
    }
    Ok(FrameConvertedData { data, data_size: size, quality, fps })
}

} // verus!
