//! Chunks of planar output audio.

use vstd::prelude::*;

verus! {

/// A chunk of output audio: a planar buffer, and the requests of the grains
/// on either side of it.
///
/// Channel `n` holds `frame_count` frames from sample `n * channel_stride` of
/// `data` on. `T` is the sample type. `R` is the type of a request:
/// `request[0]` belongs to the first frame of the chunk, `request[1]` to the
/// frame after its last.
#[derive(Debug)]
pub struct OutputChunk<'a, T, R> {
    /// The samples, neither aligned nor interleaved.
    pub data: &'a mut [T],
    /// Number of frames in each channel.
    pub frame_count: usize,
    /// Distance in samples between the starts of two consecutive channels.
    pub channel_stride: usize,
    /// The requests that bracket the chunk, where known.
    pub request: [Option<R>; 2],
}

/// The number of samples that the engine's buffer is taken to hold where it
/// reports `frame_count` frames at a stride of `channel_stride`: their
/// product, or none where either is not positive.
pub open spec fn engine_len(frame_count: i32, channel_stride: isize) -> nat {
    if frame_count > 0 && channel_stride > 0 {
        (frame_count * channel_stride) as nat
    } else {
        0
    }
}

impl<'a, T, R> OutputChunk<'a, T, R> {
    /// The samples of the chunk's buffer.
    pub open spec fn samples(&self) -> Seq<T> {
        (*self.data)@
    }

    /// Whether channel `n` lies inside the buffer.
    pub open spec fn holds_channel(&self, n: nat) -> bool {
        n * self.channel_stride + self.frame_count <= self.samples().len()
    }

    /// The frames of channel `n`.
    pub open spec fn channel_samples(&self, n: nat) -> Seq<T> {
        self.samples().subrange(
            n * self.channel_stride,
            n * self.channel_stride + self.frame_count,
        )
    }

    /// An empty chunk over `data`: no frame yet, and no request known.
    pub fn new(data: &'a mut [T], channel_stride: usize) -> (chunk: OutputChunk<'a, T, R>)
        ensures
            chunk.samples() == old(data)@,
            chunk.frame_count == 0,
            chunk.channel_stride == channel_stride,
            chunk.request[0] is None,
            chunk.request[1] is None,
    {
        OutputChunk { data, frame_count: 0, channel_stride, request: [None, None] }
    }

    /// The number of samples to take from the engine's buffer, or `None`
    /// where that number does not fit in `usize`.
    pub fn data_len(frame_count: i32, channel_stride: isize) -> (len: Option<usize>)
        ensures
            match len {
                Some(n) => n == engine_len(frame_count, channel_stride),
                None => engine_len(frame_count, channel_stride) > usize::MAX,
            },
    {
        if frame_count > 0 && channel_stride > 0 {
            (frame_count as usize).checked_mul(channel_stride as usize)
        } else {
            Some(0)
        }
    }

    /// The chunk that the engine has filled in: `data` is what was taken
    /// from its buffer, the counts and requests are as it reported them.
    pub fn from_engine(
        data: &'a mut [T],
        frame_count: i32,
        channel_stride: isize,
        request: [Option<R>; 2],
    ) -> (chunk: OutputChunk<'a, T, R>)
        requires
            frame_count >= 0,
            channel_stride >= 0,
        ensures
            chunk.samples() == old(data)@,
            chunk.frame_count == frame_count,
            chunk.channel_stride == channel_stride,
            chunk.request == request,
    {
        OutputChunk {
            data,
            frame_count: frame_count as usize,
            channel_stride: channel_stride as usize,
            request,
        }
    }

    /// Decides whether channel `n` lies inside the buffer.
    pub fn has_channel(&self, n: usize) -> (held: bool)
        ensures
            held == self.holds_channel(n as nat),
    {
        let len: usize = self.data.len();
        if self.frame_count > len {
            assert(n * self.channel_stride >= 0) by (nonlinear_arith);
            return false;
        }
        match n.checked_mul(self.channel_stride) {
            Some(start) => start <= len - self.frame_count,
            None => false,
        }
    }

    /// The frames of channel `n`.
    pub fn channel(&self, n: usize) -> (frames: &[T])
        requires
            self.holds_channel(n as nat),
        ensures
            frames@ == self.channel_samples(n as nat),
    {
        let len: usize = self.data.len();
        assert(n * self.channel_stride + self.frame_count <= len);
        let start: usize = n * self.channel_stride;
        vstd::slice::slice_subrange(&*self.data, start, start + self.frame_count)
    }
}

} // verus!
