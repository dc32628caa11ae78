//! The block streamer: arbitrary blocks of planar audio in, contiguous output
//! out, with the engine doing the rendering in between.

use vstd::prelude::*;

use crate::stretcher::Stretcher;
use crate::stretcher::StretcherView;
use crate::stretcher::construction_refusal;

verus! {

/// Why a block cannot be handed to the engine.
#[derive(Debug, Clone, Copy, PartialEq, Eq, Structural)]
pub enum BlockError {
    /// The block holds no input frame.
    NoInputFrames,
    /// No output frame is asked for.
    NoOutputFrames,
    /// The input does not have one buffer per channel.
    InputChannelCount { found: usize, expected: usize },
    /// An input buffer holds fewer frames than the block submits.
    InputChannelTooShort { channel: usize, len: usize, needed: usize },
    /// The output does not have one buffer per channel.
    OutputChannelCount { found: usize, expected: usize },
    /// An output buffer cannot take the frames that may be written.
    OutputChannelTooShort { channel: usize, len: usize, needed: usize },
    /// The input position would leave the range of `isize`.
    PositionOverflow,
}

/// The length of each channel buffer.
pub open spec fn channel_lens<T>(channels: Seq<Vec<T>>) -> Seq<usize> {
    Seq::new(channels.len(), |c: int| channels[c].len())
}

/// The first channel at or after `from` whose buffer holds fewer than
/// `needed` frames, or `lens.len()` where there is none.
pub open spec fn first_short(lens: Seq<usize>, needed: usize, from: int) -> int
    decreases lens.len() - from,
{
    if from < 0 || from >= lens.len() {
        lens.len() as int
    } else if lens[from] < needed {
        from
    } else {
        first_short(lens, needed, from + 1)
    }
}

/// `first_short` finds the least short channel: every channel before it is
/// long enough, and it is short itself unless it is `lens.len()`.
pub proof fn lemma_first_short(lens: Seq<usize>, needed: usize, from: int)
    requires
        0 <= from <= lens.len(),
    ensures
        from <= first_short(lens, needed, from) <= lens.len(),
        forall|c: int| from <= c < first_short(lens, needed, from) ==> lens[c] >= needed,
        first_short(lens, needed, from) < lens.len() ==> lens[first_short(lens, needed, from)]
            < needed,
    decreases lens.len() - from,
{
    if from < lens.len() && lens[from] >= needed {
        lemma_first_short(lens, needed, from + 1);
    }
}

/// The verdict on one block: the first violation in the order in which the
/// conditions are checked, or `None` where the block can be processed.
///
/// `input` and `output` are the lengths of the channel buffers; `input` is
/// `None` for a muted block. `position` is the input position before the
/// block.
pub open spec fn block_verdict(
    num_channels: nat,
    position: nat,
    input: Option<Seq<usize>>,
    output: Seq<usize>,
    input_frame_count: usize,
    required_output_len: usize,
) -> Option<BlockError> {
    let short_in = if input is Some {
        first_short(input->0, input_frame_count, 0)
    } else {
        0
    };
    let short_out = first_short(output, required_output_len, 0);
    if input_frame_count == 0 {
        Some(BlockError::NoInputFrames)
    } else if required_output_len == 0 {
        Some(BlockError::NoOutputFrames)
    } else if input is Some && input->0.len() != num_channels {
        Some(
            BlockError::InputChannelCount {
                found: input->0.len() as usize,
                expected: num_channels as usize,
            },
        )
    } else if input is Some && short_in < input->0.len() {
        Some(
            BlockError::InputChannelTooShort {
                channel: short_in as usize,
                len: input->0[short_in],
                needed: input_frame_count,
            },
        )
    } else if output.len() != num_channels {
        Some(
            BlockError::OutputChannelCount {
                found: output.len() as usize,
                expected: num_channels as usize,
            },
        )
    } else if short_out < output.len() {
        Some(
            BlockError::OutputChannelTooShort {
                channel: short_out as usize,
                len: output[short_out],
                needed: required_output_len,
            },
        )
    } else if position + input_frame_count > isize::MAX {
        Some(BlockError::PositionOverflow)
    } else {
        None
    }
}

/// What a block must fulfil to be processed, stated directly.
pub open spec fn block_ok(
    num_channels: nat,
    position: nat,
    input: Option<Seq<usize>>,
    output: Seq<usize>,
    input_frame_count: usize,
    required_output_len: usize,
) -> bool {
    &&& input_frame_count > 0
    &&& required_output_len > 0
    &&& input is Some ==> {
        &&& input->0.len() == num_channels
        &&& forall|c: int| 0 <= c < input->0.len() ==> input->0[c] >= input_frame_count
    }
    &&& output.len() == num_channels
    &&& forall|c: int| 0 <= c < output.len() ==> output[c] >= required_output_len
    &&& position + input_frame_count <= isize::MAX
}

/// A block passes the checks exactly when it fulfils every condition.
pub proof fn lemma_verdict_none_iff_ok(
    num_channels: nat,
    position: nat,
    input: Option<Seq<usize>>,
    output: Seq<usize>,
    input_frame_count: usize,
    required_output_len: usize,
)
    ensures
        block_verdict(
            num_channels,
            position,
            input,
            output,
            input_frame_count,
            required_output_len,
        ) is None <==> block_ok(
            num_channels,
            position,
            input,
            output,
            input_frame_count,
            required_output_len,
        ),
{
    if input is Some {
        lemma_first_short(input->0, input_frame_count, 0);
    }
    lemma_first_short(output, required_output_len, 0);
}

/// One step of a flush: the size of the next muted block, bounded by
/// `limit`, and the frames that remain after it. `None` where the block
/// would be empty.
pub open spec fn flush_step(remaining: nat, limit: nat) -> Option<(nat, nat)> {
    let frames = if remaining <= limit {
        remaining
    } else {
        limit
    };
    if frames == 0 {
        None
    } else {
        Some((frames, (remaining - frames) as nat))
    }
}

/// The abstract state of a streamer.
pub struct StreamView {
    /// The controller that the streamer owns.
    pub stretcher: StretcherView,
    /// The largest block that the streamer was created for.
    pub max_input_frame_count: nat,
    /// Input frames submitted so far.
    pub input_position: nat,
    /// Output frames still to be discarded as warm-up; `None` until the
    /// engine's latency has been taken.
    pub discard: Option<nat>,
}

impl StreamView {
    /// A streamer as it is right after construction.
    pub open spec fn fresh(stretcher: StretcherView, max_input_frame_count: nat) -> StreamView {
        StreamView { stretcher, max_input_frame_count, input_position: 0, discard: None }
    }

    /// The state after a block of `input_frame_count` frames.
    pub open spec fn after_block(self, input_frame_count: nat) -> StreamView {
        StreamView { input_position: self.input_position + input_frame_count, ..self }
    }

    /// The warm-up frames still to be discarded before a rendered block is
    /// looked at. `latency_frames` counts only while none has been taken.
    pub open spec fn budget(self, latency_frames: nat) -> nat {
        match self.discard {
            Some(remaining) => remaining,
            None => latency_frames,
        }
    }

    /// How many of `produced` frames are warm-up.
    pub open spec fn skipped(self, produced: nat, latency_frames: nat) -> nat {
        if self.budget(latency_frames) <= produced {
            self.budget(latency_frames)
        } else {
            produced
        }
    }

    /// The state after the warm-up frames of a rendered block are discarded.
    pub open spec fn after_discard(self, produced: nat, latency_frames: nat) -> StreamView {
        StreamView {
            discard: Some(
                (self.budget(latency_frames) - self.skipped(produced, latency_frames)) as nat,
            ),
            ..self
        }
    }
}

/// Block streaming over one controller.
#[derive(Debug)]
pub struct Stream {
    stretcher: Stretcher,
    max_input_frame_count: usize,
    input_position: isize,
    discard: Option<usize>,
}

impl View for Stream {
    type V = StreamView;

    closed spec fn view(&self) -> StreamView {
        StreamView {
            stretcher: self.stretcher@,
            max_input_frame_count: self.max_input_frame_count as nat,
            input_position: if self.input_position >= 0 {
                self.input_position as nat
            } else {
                0
            },
            discard: match self.discard {
                Some(remaining) => Some(remaining as nat),
                None => None,
            },
        }
    }
}

/// The first buffer of `channels` that holds fewer than `needed` frames,
/// with its length.
fn find_short<T>(channels: &[Vec<T>], needed: usize) -> (found: Option<(usize, usize)>)
    ensures
        match found {
            Some((channel, len)) => {
                &&& channel == first_short(channel_lens(channels@), needed, 0)
                &&& channel < channels@.len()
                &&& len == channels@[channel as int].len()
            },
            None => first_short(channel_lens(channels@), needed, 0) == channels@.len(),
        },
{
    let ghost lens = channel_lens(channels@);
    let mut c: usize = 0;
    while c < channels.len()
        invariant
            c <= channels@.len(),
            lens == channel_lens(channels@),
            first_short(lens, needed, 0) == first_short(lens, needed, c as int),
        decreases channels@.len() - c,
    {
        let len: usize = channels[c].len();
        if len < needed {
            return Some((c, len));
        }
        c += 1;
    }
    None
}

/// One view per channel of the frames that a block submits: the first
/// `input_frame_count` samples of each buffer, in channel order.
///
/// The views are built anew for each block and borrow from the caller's
/// buffers; nothing of them is kept.
pub fn input_views<'a, T>(input_channels: &'a [Vec<T>], input_frame_count: usize) -> (views: Vec<
    &'a [T],
>)
    requires
        forall|c: int|
            0 <= c < input_channels@.len() ==> input_channels@[c]@.len() >= input_frame_count,
    ensures
        views@.len() == input_channels@.len(),
        forall|c: int|
            0 <= c < views@.len() ==> (#[trigger] views@[c])@ == input_channels@[c]@.subrange(
                0,
                input_frame_count as int,
            ),
{
    let mut views: Vec<&'a [T]> = Vec::new();
    let mut c: usize = 0;
    while c < input_channels.len()
        invariant
            c <= input_channels@.len(),
            views@.len() == c,
            forall|k: int|
                0 <= k < input_channels@.len() ==> input_channels@[k]@.len() >= input_frame_count,
            forall|k: int|
                0 <= k < c ==> (#[trigger] views@[k])@ == input_channels@[k]@.subrange(
                    0,
                    input_frame_count as int,
                ),
        decreases input_channels@.len() - c,
    {
        let channel: &'a [T] = input_channels[c].as_slice();
        views.push(vstd::slice::slice_subrange(channel, 0, input_frame_count));
        c += 1;
    }
    views
}

impl Stream {
    #[verifier::type_invariant]
    spec fn counted(&self) -> bool {
        self.input_position >= 0
    }

    /// A streamer over a new controller, for blocks of up to
    /// `max_input_frame_count` frames.
    ///
    /// `engine` is the outcome of creating the engine, as for
    /// `Stretcher::new`, and construction fails where that fails.
    pub fn new(
        sample_rate: usize,
        num_channels: usize,
        max_input_frame_count: usize,
        engine: Option<usize>,
    ) -> (r: Result<Stream, &'static str>)
        ensures
            match r {
                Ok(stream) => {
                    &&& construction_refusal(sample_rate, num_channels, engine) is None
                    &&& stream@ == StreamView::fresh(
                        StretcherView::fresh(
                            sample_rate as nat,
                            num_channels as nat,
                            engine->0 as nat,
                        ),
                        max_input_frame_count as nat,
                    )
                },
                Err(message) => construction_refusal(sample_rate, num_channels, engine) == Some(
                    message@,
                ),
            },
    {
        match Stretcher::new(sample_rate, num_channels, engine) {
            Err(message) => Err(message),
            Ok(stretcher) => Ok(
                Stream { stretcher, max_input_frame_count, input_position: 0, discard: None },
            ),
        }
    }

    /// The sample rate in Hz. It is never zero.
    pub fn sample_rate(&self) -> (rate: usize)
        ensures
            rate == self@.stretcher.sample_rate,
            rate > 0,
    {
        self.stretcher.sample_rate()
    }

    /// The number of channels. It is never zero.
    pub fn num_channels(&self) -> (channels: usize)
        ensures
            channels == self@.stretcher.num_channels,
            channels > 0,
    {
        self.stretcher.num_channels()
    }

    /// Checks one block before it is handed to the engine.
    ///
    /// `input_channels` is `None` for a muted block. `required_output_len` is
    /// the requested number of output frames, rounded up. The conditions are
    /// checked in a fixed order and the first one that fails is reported.
    pub fn check_block<T>(
        &self,
        input_channels: Option<&[Vec<T>]>,
        output_channels: &[Vec<T>],
        input_frame_count: usize,
        required_output_len: usize,
    ) -> (r: Result<(), BlockError>)
        ensures
            match r {
                Ok(()) => self.accepts(
                    input_channels,
                    output_channels,
                    input_frame_count,
                    required_output_len,
                ) is None,
                Err(e) => self.accepts(
                    input_channels,
                    output_channels,
                    input_frame_count,
                    required_output_len,
                ) == Some(e),
            },
    {
        proof {
            use_type_invariant(self);
        }
        if input_frame_count == 0 {
            return Err(BlockError::NoInputFrames);
        }
        if required_output_len == 0 {
            return Err(BlockError::NoOutputFrames);
        }
        let expected: usize = self.stretcher.num_channels();
        if let Some(inputs) = input_channels {
            if inputs.len() != expected {
                return Err(BlockError::InputChannelCount { found: inputs.len(), expected });
            }
            if let Some((channel, len)) = find_short(inputs, input_frame_count) {
                return Err(
                    BlockError::InputChannelTooShort { channel, len, needed: input_frame_count },
                );
            }
        }
        if output_channels.len() != expected {
            return Err(BlockError::OutputChannelCount { found: output_channels.len(), expected });
        }
        if let Some((channel, len)) = find_short(output_channels, required_output_len) {
            return Err(
                BlockError::OutputChannelTooShort { channel, len, needed: required_output_len },
            );
        }
        if input_frame_count > (isize::MAX - self.input_position) as usize {
            return Err(BlockError::PositionOverflow);
        }
        Ok(())
    }

    /// The verdict of `check_block` on a block, in the streamer's present
    /// state.
    pub open spec fn accepts<T>(
        &self,
        input_channels: Option<&[Vec<T>]>,
        output_channels: &[Vec<T>],
        input_frame_count: usize,
        required_output_len: usize,
    ) -> Option<BlockError> {
        block_verdict(
            self@.stretcher.num_channels,
            self@.input_position,
            match input_channels {
                Some(inputs) => Some(channel_lens(inputs@)),
                None => None,
            },
            channel_lens(output_channels@),
            input_frame_count,
            required_output_len,
        )
    }

    /// Records a block that the engine has rendered, and returns the number
    /// of frames that it wrote to each output buffer.
    ///
    /// The block is one that `check_block` accepts, and `produced` is what the
    /// engine reported: never more than `required_output_len`.
    pub fn process<T>(
        &mut self,
        input_channels: Option<&[Vec<T>]>,
        output_channels: &[Vec<T>],
        input_frame_count: usize,
        required_output_len: usize,
        produced: usize,
    ) -> (written: usize)
        requires
            old(self).accepts(
                input_channels,
                output_channels,
                input_frame_count,
                required_output_len,
            ) is None,
            produced <= required_output_len,
        ensures
            final(self)@ == old(self)@.after_block(input_frame_count as nat),
            written == produced,
    {
        proof {
            use_type_invariant(&*self);
        }
        self.input_position = self.input_position + input_frame_count as isize;
        produced
    }

    /// The position in the input: the sum of the frame counts of all blocks
    /// processed so far.
    pub fn input_position(&self) -> (position: isize)
        ensures
            position == self@.input_position,
    {
        proof {
            use_type_invariant(self);
        }
        self.input_position
    }

    /// The warm-up frames still to be discarded, or `None` while the
    /// engine's latency has not been taken.
    pub fn remaining_latency(&self) -> (remaining: Option<usize>)
        ensures
            match remaining {
                Some(frames) => self@.discard == Some(frames as nat),
                None => self@.discard is None,
            },
    {
        self.discard
    }

    /// Takes the warm-up frames out of a rendered block, and returns how many
    /// of its `produced` frames are warm-up: the caller drops that many
    /// leading frames and keeps the rest.
    ///
    /// `latency_frames` is the engine's latency in output frames. It is taken
    /// on the first call and ignored afterwards.
    pub fn discard_latency(&mut self, produced: usize, latency_frames: usize) -> (skip: usize)
        ensures
            skip == old(self)@.skipped(produced as nat, latency_frames as nat),
            final(self)@ == old(self)@.after_discard(produced as nat, latency_frames as nat),
    {
        proof {
            use_type_invariant(&*self);
        }
        let budget: usize = match self.discard {
            Some(remaining) => remaining,
            None => latency_frames,
        };
        let skip: usize = if budget <= produced {
            budget
        } else {
            produced
        };
        self.discard = Some(budget - skip);
        skip
    }

    /// The next muted block of a flush that still has `remaining` input
    /// frames to submit: the number of frames of the block, and what remains
    /// after it. `None` where nothing remains, or where the streamer takes no
    /// block at all.
    pub fn flush_block(&self, remaining: usize) -> (block: Option<(usize, usize)>)
        ensures
            match block {
                Some((frames, rest)) => flush_step(remaining as nat, self@.max_input_frame_count)
                    == Some((frames as nat, rest as nat)),
                None => flush_step(remaining as nat, self@.max_input_frame_count) is None,
            },
    {
        let frames: usize = if remaining <= self.max_input_frame_count {
            remaining
        } else {
            self.max_input_frame_count
        };
        if frames == 0 {
            None
        } else {
            Some((frames, remaining - frames))
        }
    }
}

} // verus!
