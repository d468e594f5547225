use vstd::prelude::*;

verus! {

/// One periodic line of the transport consumer.
#[derive(Clone, Copy, Debug, PartialEq, Eq, Structural)]
pub struct Report {
    /// Frames captured during the last window.
    pub capture_fps: usize,
    /// Payloads delivered since the previous report.
    pub delivered_frames: usize,
    /// Kilobytes (1000 bytes) delivered since the previous report.
    pub kilobytes: usize,
    /// The quality of the payload that closed the window.
    pub quality: i32,
}

/// Counts the payloads and bytes delivered between two fps samples.
pub struct TransferStats {
    frames: usize,
    transferred: usize,
}

impl TransferStats {
    pub closed spec fn spec_frames(&self) -> nat {
        self.frames as nat
    }

    pub closed spec fn spec_transferred(&self) -> nat {
        self.transferred as nat
    }

    pub fn new() -> (r: Self)
        ensures
            r.spec_frames() == 0,
            r.spec_transferred() == 0,
    {
        TransferStats { frames: 0, transferred: 0 }
    }

    /// Payloads delivered since the last report.
    pub fn frames(&self) -> (r: usize)
        ensures
            r == self.spec_frames(),
    {
        self.frames
    }

    /// Bytes delivered since the last report.
    pub fn transferred(&self) -> (r: usize)
        ensures
            r == self.spec_transferred(),
    {
        self.transferred
    }

    /// Records one successful write of `written` bytes for a payload with the
    /// given fps sample and quality. When the payload carries an fps sample, a
    /// report of the window is returned and the counts start again.
    pub fn record(&mut self, written: usize, fps: Option<usize>, quality: i32) -> (r: Option<Report>)
        requires
            old(self).spec_frames() < usize::MAX,
            old(self).spec_transferred() + written <= usize::MAX,
        ensures
            ({
                let frames = old(self).spec_frames() + 1;
                let bytes = old(self).spec_transferred() + written;
                match fps {
                    Some(capture_fps) => {
                        &&& r == Some(
                            Report {
                                capture_fps,
                                delivered_frames: frames as usize,
                                kilobytes: (bytes / 1000) as usize,
                                quality,
                            },
                        )
                        &&& final(self).spec_frames() == 0
                        &&& final(self).spec_transferred() == 0
                    },
                    None => {
                        &&& r is None
                        &&& final(self).spec_frames() == frames
                        &&& final(self).spec_transferred() == bytes
                    },
                }
            }),
    {
        self.transferred = self.transferred + written;
        self.frames = self.frames + 1;
        match fps {
            Some(capture_fps) => {
                let report = Report {
                    capture_fps,
                    delivered_frames: self.frames,
                    kilobytes: self.transferred / 1000,
                    quality,
                };
                self.frames = 0;
                self.transferred = 0;
                Some(report)
            },
            None => None,
        }
    }
}

} // verus!
