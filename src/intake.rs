use vstd::prelude::*;
use crate::frame::FrameCaptureData;
use crate::route::{route, spec_route, Route};

verus! {

/// The frame count after one more frame, held at `usize::MAX`.
pub open spec fn next_count(n: nat) -> nat {
    if n < usize::MAX {
        n + 1
    } else {
        n
    }
}

/// The capture-side stage: drops empty captures, counts frames for the
/// frames-per-second sample and routes each bitmap to the encoder or the resizer.
pub struct Intake {
    frames: usize,
}

impl Intake {
    /// Frames counted in the current measurement window.
    pub closed spec fn counted(&self) -> nat {
        self.frames as nat
    }

    pub fn new() -> (r: Self)
        ensures
            r.counted() == 0,
    {
        Intake { frames: 0 }
    }

    /// Frames counted in the current measurement window.
    pub fn frames(&self) -> (r: usize)
        ensures
            r == self.counted(),
    {
        self.frames
    }

    /// Takes one capture. An empty pixel buffer is skipped and not counted.
    /// Otherwise the frame is counted (the count stops at `usize::MAX`); when `window_elapsed` (the measurement
    /// window of about a second is over) the frame carries the count as its
    /// fps sample and the count starts again; the frame is routed by its size.
    pub fn accept(&mut self, data: Vec<u8>, width: usize, height: usize, window_elapsed: bool) -> (r:
        Option<(Route, FrameCaptureData)>)
        ensures
            data@.len() == 0 ==> r is None && final(self).counted() == old(self).counted(),
            data@.len() > 0 ==> (r matches Some((to, f)) && {
                &&& to == spec_route(width as int, height as int)
                &&& f.data@ == data@
                &&& f.width == width
                &&& f.height == height
                &&& f.fps == if window_elapsed {
                    Some(next_count(old(self).counted()) as usize)
                } else {
                    None::<usize>
                }
                &&& final(self).counted() == if window_elapsed {
                    0
                } else {
                    next_count(old(self).counted())
                }
            }),
    {
        if data.len() == 0 {
            return None;
        }
        if self.frames < usize::MAX {
            self.frames = self.frames + 1;
        }
        let fps = if window_elapsed {
            let n = self.frames;
            self.frames = 0;
            Some(n)
        } else {
            None
        };
        let to = route(width, height);
        Some((to, FrameCaptureData { data, width, height, fps }))
    }
}

} // verus!
