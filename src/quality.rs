use vstd::prelude::*;

verus! {

/// Above this throughput (bytes per second) the controller lowers the quality.
pub const HIGH_THRESHOLD: u64 = 7000000;

/// Below this throughput (bytes per second) the controller raises the quality.
pub const LOW_THRESHOLD: u64 = 4000000;

/// Nanoseconds in one second.
pub const NANOS_PER_SECOND: u64 = 1000000000;

/// `bytes` sent over `nanos` nanoseconds is faster than `threshold` bytes per
/// second (an elapsed time of zero is faster than any threshold when bytes were sent).
pub open spec fn speed_above(bytes: nat, nanos: nat, threshold: nat) -> bool {
    bytes * NANOS_PER_SECOND > threshold * nanos
}

/// `bytes` sent over `nanos` nanoseconds is slower than `threshold` bytes per second.
pub open spec fn speed_below(bytes: nat, nanos: nat, threshold: nat) -> bool {
    bytes * NANOS_PER_SECOND < threshold * nanos
}

/// The ladder index after one frame of `bytes` bytes that took `nanos`
/// nanoseconds since the previous measurement: one step down when faster than
/// the high threshold and not at the lowest level, else one step up when slower
/// than the low threshold and not at the highest level, else unchanged.
pub open spec fn next_index(index: nat, len: nat, bytes: nat, nanos: nat) -> nat {
    if index > 0 && speed_above(bytes, nanos, HIGH_THRESHOLD as nat) {
        (index - 1) as nat
    } else if index + 1 < len && speed_below(bytes, nanos, LOW_THRESHOLD as nat) {
        index + 1
    } else {
        index
    }
}

/// The standard ladder of JPEG qualities.
pub open spec fn standard_levels() -> Seq<i32> {
    seq![40i32, 60i32, 70i32, 80i32]
}

/// A quality of the ladder: 40, 60, 70 or 80.
pub open spec fn is_ladder_quality(q: i32) -> bool {
    q == 40 || q == 60 || q == 70 || q == 80
}

/// The JPEG quality ladder and the index of the level in use.
pub struct QualityController {
    levels: Vec<i32>,
    index: usize,
}

impl QualityController {
    pub closed spec fn levels(&self) -> Seq<i32> {
        self.levels@
    }

    pub closed spec fn current(&self) -> nat {
        self.index as nat
    }

    /// The standard ladder with the index on one of its levels.
    pub open spec fn well_formed(&self) -> bool {
        &&& self.levels() == standard_levels()
        &&& self.current() < self.levels().len()
    }

    /// A controller on the ladder 40, 60, 70, 80, starting at 40.
    pub fn new() -> (r: Self)
        ensures
            r.well_formed(),
            r.current() == 0,
    {
        let levels: Vec<i32> = vec![40, 60, 70, 80];
        assert(levels@ =~= standard_levels());
        QualityController { levels, index: 0 }
    }

    /// The index of the level in use.
    pub fn index(&self) -> (r: usize)
        ensures
            r == self.current(),
    {
        self.index
    }

    /// The number of levels of the ladder.
    pub fn len(&self) -> (r: usize)
        ensures
            r == self.levels().len(),
    {
        self.levels.len()
    }

    /// The quality in use.
    pub fn quality(&self) -> (r: i32)
        requires
            self.well_formed(),
        ensures
            r == self.levels()[self.current() as int],
            is_ladder_quality(r),
    {
        self.levels[self.index]
    }

    /// Adjusts the level after a frame of `bytes` bytes sent `elapsed_nanos`
    /// nanoseconds after the previous one: at most one step per frame, down
    /// when faster than 7,000,000 bytes per second, up when slower than
    /// 4,000,000, within the ladder.
    pub fn record_frame(&mut self, bytes: usize, elapsed_nanos: u64)
        requires
            old(self).well_formed(),
        ensures
            final(self).well_formed(),
            final(self).levels() == old(self).levels(),
            final(self).current() == next_index(
                old(self).current(),
                old(self).levels().len(),
                bytes as nat,
                elapsed_nanos as nat,
            ),
    {
        proof {
            let b = bytes as int;
            let t = elapsed_nanos as int;
            assert(b * 1000000000 < 0x1_0000_0000_0000_0000_0000_0000_0000) by (nonlinear_arith)
                requires
                    0 <= b < 0x1_0000_0000_0000_0000,
            ;
            assert(7000000 * t < 0x1_0000_0000_0000_0000_0000_0000_0000) by (nonlinear_arith)
                requires
                    0 <= t < 0x1_0000_0000_0000_0000,
            ;
            assert(4000000 * t < 0x1_0000_0000_0000_0000_0000_0000_0000) by (nonlinear_arith)
                requires
                    0 <= t < 0x1_0000_0000_0000_0000,
            ;
        }
        let sent: u128 = (bytes as u128) * (NANOS_PER_SECOND as u128);
        let high: u128 = (HIGH_THRESHOLD as u128) * (elapsed_nanos as u128);
        let low: u128 = (LOW_THRESHOLD as u128) * (elapsed_nanos as u128);
        if self.index > 0 && sent > high {
            self.index = self.index - 1;
        } else if self.index < self.levels.len() - 1 && sent < low {
            self.index = self.index + 1;
        }
    }
}

/// Quality steps are bounded: from any index on a ladder of `len` levels, one
/// frame moves the index by at most one step and never leaves the ladder.
pub proof fn lemma_quality_step_bounded(index: nat, len: nat, bytes: nat, nanos: nat)
    requires
        index < len,
    ensures
        next_index(index, len, bytes, nanos) < len,
        next_index(index, len, bytes, nanos) <= index + 1,
        index <= next_index(index, len, bytes, nanos) + 1,
{
}

} // verus!
