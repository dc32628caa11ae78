//! Frame ranges and sample rates, as the engine reports and takes them.

use vstd::prelude::*;

verus! {

/// The input frames that the engine needs for one grain: the half-open range
/// `[begin, end)`, counted from the start of the audio track.
///
/// `begin` may be negative: the engine asks for frames before the start of
/// the track, and the caller supplies silence for them.
#[derive(Debug, Clone, Copy, PartialEq, Eq, Structural)]
pub struct InputChunk {
    /// First frame of the range.
    pub begin: isize,
    /// One past the last frame of the range.
    pub end: isize,
}

impl InputChunk {
    /// Number of frames in the range: `end - begin`, or zero where the range
    /// is empty or reversed.
    pub open spec fn spec_len(&self) -> nat {
        if self.end <= self.begin {
            0
        } else {
            (self.end - self.begin) as nat
        }
    }

    /// The range that the engine reported as a pair of 32-bit frame offsets.
    pub fn new(begin: i32, end: i32) -> (chunk: InputChunk)
        ensures
            chunk.begin == begin,
            chunk.end == end,
    {
        InputChunk { begin: begin as isize, end: end as isize }
    }

    /// Number of frames in the range.
    ///
    /// The difference is taken without overflow, whatever the two bounds are.
    pub fn len(&self) -> (n: usize)
        ensures
            n == self.spec_len(),
    {
        if self.end <= self.begin {
            0
        } else if self.begin >= 0 || self.end < 0 {
            (self.end - self.begin) as usize
        } else {
            let below: usize = (-(self.begin + 1)) as usize;
            let above: usize = self.end as usize;
            above + below + 1
        }
    }

    /// Whether the range holds no frame.
    pub fn is_empty(&self) -> (empty: bool)
        ensures
            empty == (self.spec_len() == 0),
    {
        self.end <= self.begin
    }
}

/// The sample rates of an engine instance, in Hz. They are fixed for the
/// lifetime of the instance.
#[derive(Debug, Clone, Copy, PartialEq, Eq, Structural)]
pub struct SampleRates {
    /// Rate of the audio handed to the engine.
    pub input: i32,
    /// Rate of the audio that the engine produces.
    pub output: i32,
}

} // verus!
