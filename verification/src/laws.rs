//! What holds of the controller and the streamer over any sequence of calls.

use vstd::prelude::*;

use crate::chunk::InputChunk;
use crate::planar::planar_fits;
use crate::stream::Stream;
use crate::stream::StreamView;
use crate::stream::channel_lens;
use crate::stream::flush_step;
use crate::stream::lemma_verdict_none_iff_ok;
use crate::stretcher::Operation;
use crate::stretcher::Phase;
use crate::stretcher::StretcherView;
use crate::stretcher::construction_refusal;

verus! {

/// The sum of a sequence of frame counts.
pub open spec fn total(counts: Seq<nat>) -> nat
    decreases counts.len(),
{
    if counts.len() == 0 {
        0
    } else {
        total(counts.drop_last()) + counts.last()
    }
}

/// The state of a streamer after the blocks of `blocks`, in their order.
pub open spec fn after_blocks(start: StreamView, blocks: Seq<nat>) -> StreamView
    decreases blocks.len(),
{
    if blocks.len() == 0 {
        start
    } else {
        after_blocks(start, blocks.drop_last()).after_block(blocks.last())
    }
}

/// The state of a streamer after the warm-up frames of each rendered block
/// of `renders` are discarded. A render is the number of frames produced and
/// the latency that the engine reported with it.
pub open spec fn after_discards(start: StreamView, renders: Seq<(nat, nat)>) -> StreamView
    decreases renders.len(),
{
    if renders.len() == 0 {
        start
    } else {
        after_discards(start, renders.drop_last()).after_discard(
            renders.last().0,
            renders.last().1,
        )
    }
}

/// The frames discarded over the rendered blocks of `renders`.
pub open spec fn skipped_total(start: StreamView, renders: Seq<(nat, nat)>) -> nat
    decreases renders.len(),
{
    if renders.len() == 0 {
        0
    } else {
        skipped_total(start, renders.drop_last()) + after_discards(
            start,
            renders.drop_last(),
        ).skipped(renders.last().0, renders.last().1)
    }
}

/// The frames produced over the rendered blocks of `renders`.
pub open spec fn produced_total(renders: Seq<(nat, nat)>) -> nat
    decreases renders.len(),
{
    if renders.len() == 0 {
        0
    } else {
        produced_total(renders.drop_last()) + renders.last().0
    }
}

/// The input frames that a flush submits in all, block after block, from
/// `remaining` frames on.
pub open spec fn flush_frames(remaining: nat, limit: nat) -> nat
    decreases remaining,
{
    match flush_step(remaining, limit) {
        Some((frames, rest)) => frames + flush_frames(rest, limit),
        None => 0,
    }
}

/// The number of muted blocks that a flush takes from `remaining` frames on.
pub open spec fn flush_blocks(remaining: nat, limit: nat) -> nat
    decreases remaining,
{
    match flush_step(remaining, limit) {
        Some((frames, rest)) => 1 + flush_blocks(rest, limit),
        None => 0,
    }
}

/// Construction succeeds for every positive rate and channel count for which
/// the engine could be created, and for no other input.
pub proof fn lemma_construction_succeeds(
    sample_rate: usize,
    num_channels: usize,
    engine: Option<usize>,
)
    ensures
        construction_refusal(sample_rate, num_channels, engine) is None <==> sample_rate > 0
            && num_channels > 0 && engine is Some,
{
}

/// A block that the streamer accepts fulfils every condition, and a block
/// that fulfils every condition is accepted: both frame counts are positive,
/// there is one output buffer per channel and each takes
/// `required_output_len` frames, the input, unless muted, has one buffer per
/// channel and each holds `input_frame_count` frames, and the position stays
/// in the range of `isize`.
pub proof fn lemma_accepted_block<T>(
    stream: &Stream,
    input_channels: Option<&[Vec<T>]>,
    output_channels: &[Vec<T>],
    input_frame_count: usize,
    required_output_len: usize,
)
    ensures
        stream.accepts(input_channels, output_channels, input_frame_count, required_output_len)
            is None <==> {
            &&& input_frame_count > 0
            &&& required_output_len > 0
            &&& input_channels matches Some(inputs) ==> {
                &&& inputs@.len() == stream@.stretcher.num_channels
                &&& forall|c: int|
                    0 <= c < inputs@.len() ==> (#[trigger] inputs@[c])@.len() >= input_frame_count
            }
            &&& output_channels@.len() == stream@.stretcher.num_channels
            &&& forall|c: int|
                0 <= c < output_channels@.len() ==> (#[trigger] output_channels@[c])@.len()
                    >= required_output_len
            &&& stream@.input_position + input_frame_count <= isize::MAX
        },
{
    let input = match input_channels {
        Some(inputs) => Some(channel_lens(inputs@)),
        None => None,
    };
    let output = channel_lens(output_channels@);
    lemma_verdict_none_iff_ok(
        stream@.stretcher.num_channels,
        stream@.input_position,
        input,
        output,
        input_frame_count,
        required_output_len,
    );
    assert forall|c: int| 0 <= c < output_channels@.len() implies output[c]
        == (#[trigger] output_channels@[c])@.len() by {}
    if let Some(inputs) = input_channels {
        assert forall|c: int| 0 <= c < inputs@.len() implies input->0[c] == (#[trigger] inputs@[c])@.len() by {}
    }
}

/// The input position advances by exactly the frames submitted: after any
/// number of blocks it is the position before them plus the sum of their
/// frame counts, and nothing else about the streamer has changed.
pub proof fn lemma_input_position_is_sum(start: StreamView, blocks: Seq<nat>)
    ensures
        after_blocks(start, blocks).input_position == start.input_position + total(blocks),
        after_blocks(start, blocks).discard == start.discard,
        after_blocks(start, blocks).stretcher == start.stretcher,
        after_blocks(start, blocks).max_input_frame_count == start.max_input_frame_count,
    decreases blocks.len(),
{
    if blocks.len() > 0 {
        lemma_input_position_is_sum(start, blocks.drop_last());
    }
}

/// A new streamer that has processed the blocks of `blocks` stands at the
/// sum of their frame counts.
pub proof fn lemma_position_from_start(
    stretcher: StretcherView,
    max_input_frame_count: nat,
    blocks: Seq<nat>,
)
    ensures
        after_blocks(StreamView::fresh(stretcher, max_input_frame_count), blocks).input_position
            == total(blocks),
{
    lemma_input_position_is_sum(StreamView::fresh(stretcher, max_input_frame_count), blocks);
}

/// The latency is taken once: after the first rendered block the budget no
/// longer depends on the latency that later calls report.
pub proof fn lemma_latency_taken_once(
    start: StreamView,
    produced: nat,
    latency_frames: nat,
    later: nat,
    other: nat,
)
    ensures
        start.after_discard(produced, latency_frames).discard is Some,
        start.after_discard(produced, latency_frames).budget(later) == start.after_discard(
            produced,
            latency_frames,
        ).budget(other),
{
}

/// Over any sequence of rendered blocks, exactly the warm-up is discarded:
/// the frames skipped in all are the budget at the start, or all frames
/// produced where those are fewer. What is left of the budget is the rest.
pub proof fn lemma_discard_total(start: StreamView, renders: Seq<(nat, nat)>)
    requires
        renders.len() > 0,
    ensures
        skipped_total(start, renders) == if start.budget(renders[0].1) <= produced_total(
            renders,
        ) {
            start.budget(renders[0].1)
        } else {
            produced_total(renders)
        },
        after_discards(start, renders).discard == Some(
            (start.budget(renders[0].1) - skipped_total(start, renders)) as nat,
        ),
        after_discards(start, renders).input_position == start.input_position,
    decreases renders.len(),
{
    let front = renders.drop_last();
    if front.len() == 0 {
        assert(skipped_total(start, front) == 0);
        assert(produced_total(front) == 0);
        assert(after_discards(start, front) == start);
    } else {
        assert(front[0] == renders[0]);
        lemma_discard_total(start, front);
    }
}

/// Once as many frames have been produced as the budget held, every later
/// block is kept whole.
pub proof fn lemma_discard_ends(start: StreamView, renders: Seq<(nat, nat)>, produced: nat, latency_frames: nat)
    requires
        renders.len() > 0,
        produced_total(renders) >= start.budget(renders[0].1),
    ensures
        after_discards(start, renders).skipped(produced, latency_frames) == 0,
{
    lemma_discard_total(start, renders);
}

/// A flush submits exactly the frames that remained, in blocks that each
/// hold at least one frame and at most `limit`.
pub proof fn lemma_flush_submits_all(remaining: nat, limit: nat)
    requires
        limit > 0,
    ensures
        flush_frames(remaining, limit) == remaining,
        match flush_step(remaining, limit) {
            Some((frames, rest)) => 0 < frames <= limit && frames + rest == remaining,
            None => remaining == 0,
        },
    decreases remaining,
{
    match flush_step(remaining, limit) {
        Some((frames, rest)) => {
            lemma_flush_submits_all(rest, limit);
        },
        None => {},
    }
}

/// A flush takes as many blocks as `limit` goes into the remaining frames,
/// rounded up.
pub proof fn lemma_flush_block_count(remaining: nat, limit: nat)
    requires
        limit > 0,
    ensures
        flush_blocks(remaining, limit) == (remaining + limit - 1) / (limit as int),
    decreases remaining,
{
    match flush_step(remaining, limit) {
        Some((frames, rest)) => {
            lemma_flush_block_count(rest, limit);
            if remaining <= limit {
                assert(rest == 0);
                assert(flush_step(0, limit) is None);
                assert(flush_blocks(rest, limit) == 0);
                assert((remaining + limit - 1) / (limit as int) == 1) by (nonlinear_arith)
                    requires
                        0 < remaining <= limit,
                ;
            } else {
                assert(rest == remaining - limit);
                assert((remaining + limit - 1) / (limit as int) == 1 + (rest + limit - 1) / (
                limit as int)) by (nonlinear_arith)
                    requires
                        rest == remaining - limit,
                        limit > 0,
                ;
            }
        },
        None => {
            assert(remaining == 0);
            assert((limit - 1) / (limit as int) == 0) by (nonlinear_arith)
                requires
                    limit > 0,
            ;
        },
    }
}

/// A planar buffer that holds all channels holds each of them: channel `n`
/// starts `n` strides into the buffer and ends inside it. With fewer
/// channels, or fewer frames, the buffer still fits.
pub proof fn lemma_planar_holds_each_channel(
    len: nat,
    stride: nat,
    frames: nat,
    channels: nat,
    n: nat,
)
    requires
        planar_fits(len, stride, frames, channels),
        n < channels,
    ensures
        n * stride + frames <= len,
        planar_fits(len, stride, frames, n + 1),
        forall|fewer: nat| fewer <= frames ==> planar_fits(len, stride, fewer, channels),
{
    assert(n * stride <= (channels - 1) * stride) by (nonlinear_arith)
        requires
            n <= channels - 1,
    ;
}

/// Nothing may follow once the pipeline is flushed.
pub proof fn lemma_flushed_is_terminal(state: StretcherView, op: Operation)
    requires
        state.phase == Phase::Flushed,
    ensures
        !state.enabled(op),
{
}

/// No operation changes the configuration of a controller.
pub proof fn lemma_configuration_is_fixed(state: StretcherView, op: Operation)
    ensures
        state.after(op).sample_rate == state.sample_rate,
        state.after(op).num_channels == state.num_channels,
        state.after(op).max_input_frame_count == state.max_input_frame_count,
{
}

/// A grain that may be specified can be taken through all four operations
/// in their order. The controller then awaits the next grain, unless the
/// grain was a flushing one and the engine reported its pipeline flushed:
/// only then, and then always, is the controller flushed.
pub proof fn lemma_grain_cycle(
    state: StretcherView,
    flushing: bool,
    chunk: InputChunk,
    flushed: bool,
)
    requires
        state.enabled(Operation::Specify { flushing, chunk }),
    ensures
        ({
            let specified = state.after(Operation::Specify { flushing, chunk });
            let analysed = specified.after(Operation::Analyse);
            let synthesised = analysed.after(Operation::Synthesise);
            let advanced = synthesised.after(Operation::Next { flushed });
            &&& specified.enabled(Operation::Analyse)
            &&& specified.chunk == chunk
            &&& analysed.enabled(Operation::Synthesise)
            &&& synthesised.enabled(Operation::Next { flushed })
            &&& advanced.phase == if flushing && flushed {
                Phase::Flushed
            } else {
                Phase::Advanced
            }
            &&& advanced.phase == Phase::Advanced ==> forall|f: bool, c: InputChunk|
                c.spec_len() <= state.max_input_frame_count ==> #[trigger] advanced.enabled(
                    Operation::Specify { flushing: f, chunk: c },
                )
        }),
{
}

/// Each operation is enabled in one phase only, but for `Specify`, which
/// may follow the preroll or the previous grain; so two operations of
/// different kinds are never enabled together.
pub proof fn lemma_order_is_fixed(state: StretcherView, op: Operation)
    requires
        state.enabled(op),
    ensures
        op is Preroll <==> state.phase == Phase::Uninitialized,
        op is Specify <==> state.phase == Phase::Prerolled || state.phase == Phase::Advanced,
        op is Analyse <==> state.phase == Phase::Specified,
        op is Synthesise <==> state.phase == Phase::Analysed,
        op is Next <==> state.phase == Phase::Synthesised,
{
}

} // verus!
