//! The grain controller: configuration of one engine instance and the order
//! in which the grain operations may follow one another.

use vstd::prelude::*;

use crate::chunk::InputChunk;
use crate::chunk::SampleRates;
use crate::planar::fits;
use crate::planar::planar_fits;

verus! {

/// What the engine is created with.
#[derive(Debug, Clone, Copy, PartialEq, Eq, Structural)]
pub struct EngineConfig {
    /// Input and output rate; the controller uses one rate for both.
    pub sample_rates: SampleRates,
    /// Number of audio channels.
    pub channel_count: i32,
    /// Adjustment of the synthesis hop, as a power of two. Always zero.
    pub log2_synthesis_hop_adjust: i32,
}

/// The message for a configuration that is refused before the engine is
/// asked, or `None` where the configuration is accepted.
pub open spec fn config_refusal(sample_rate: usize, num_channels: usize) -> Option<Seq<char>> {
    if sample_rate == 0 {
        Some("Invalid sample rate"@)
    } else if num_channels == 0 {
        Some("Invalid channel count"@)
    } else {
        None
    }
}

impl EngineConfig {
    /// The engine parameters for a sample rate and a channel count.
    ///
    /// A zero rate is refused first, then a zero channel count. The engine
    /// takes 32-bit integers: a value beyond that range reaches it reduced to
    /// its low 32 bits.
    pub fn new(sample_rate: usize, num_channels: usize) -> (r: Result<EngineConfig, &'static str>)
        ensures
            match r {
                Ok(config) => {
                    &&& config_refusal(sample_rate, num_channels) is None
                    &&& config.sample_rates.input == sample_rate as i32
                    &&& config.sample_rates.output == sample_rate as i32
                    &&& config.channel_count == num_channels as i32
                    &&& config.log2_synthesis_hop_adjust == 0
                },
                Err(message) => config_refusal(sample_rate, num_channels) == Some(message@),
            },
    {
        if sample_rate == 0 {
            return Err("Invalid sample rate");
        }
        if num_channels == 0 {
            return Err("Invalid channel count");
        }
        let rate: i32 = #[verifier::truncate] (sample_rate as i32);
        let channels: i32 = #[verifier::truncate] (num_channels as i32);
        Ok(
            EngineConfig {
                sample_rates: SampleRates { input: rate, output: rate },
                channel_count: channels,
                log2_synthesis_hop_adjust: 0,
            },
        )
    }
}

/// Where a controller stands in the grain protocol.
///
/// After `preroll`, each grain goes through `specify_grain`, `analyse_grain`,
/// `synthesise_grain` and `next`, in that order. `Flushed` is terminal.
#[derive(Debug, Clone, Copy, PartialEq, Eq, Structural)]
pub enum Phase {
    /// Created; `preroll` has not been called.
    Uninitialized,
    /// The first request has been adjusted for the run-in.
    Prerolled,
    /// A grain has been specified; its input is awaited.
    Specified,
    /// The grain's input has been consumed.
    Analysed,
    /// The grain's output has been written.
    Synthesised,
    /// The request has been advanced to the following grain.
    Advanced,
    /// A flushing grain has drained the pipeline.
    Flushed,
}

/// The abstract state of a controller.
pub struct StretcherView {
    /// Sample rate in Hz, as given at construction.
    pub sample_rate: nat,
    /// Number of channels, as given at construction.
    pub num_channels: nat,
    /// The engine's bound on the length of any input chunk.
    pub max_input_frame_count: nat,
    /// Position in the grain protocol.
    pub phase: Phase,
    /// The input range of the grain in progress.
    pub chunk: InputChunk,
    /// Whether the grain in progress is a flushing grain.
    pub flushing: bool,
}

/// One step of the grain protocol, with what the engine reported in it.
pub enum Operation {
    /// The first request is adjusted for the run-in.
    Preroll,
    /// A grain is specified. The engine reported `chunk` as the input that
    /// it needs; `flushing` says that the grain's position is the flush
    /// sentinel.
    Specify { flushing: bool, chunk: InputChunk },
    /// The grain's input is consumed.
    Analyse,
    /// The grain's output is written.
    Synthesise,
    /// The request is advanced. `flushed` is what the engine then said of
    /// its pipeline.
    Next { flushed: bool },
}

impl StretcherView {
    /// A controller as it is right after construction.
    pub open spec fn fresh(
        sample_rate: nat,
        num_channels: nat,
        max_input_frame_count: nat,
    ) -> StretcherView {
        StretcherView {
            sample_rate,
            num_channels,
            max_input_frame_count,
            phase: Phase::Uninitialized,
            chunk: InputChunk { begin: 0, end: 0 },
            flushing: false,
        }
    }

    /// Whether `op` may come next.
    ///
    /// `Preroll` comes once, first. A grain is specified after the preroll or
    /// after the previous grain was advanced, and its chunk is no longer than
    /// the engine's bound. The other three follow in their order. Nothing may
    /// follow once the pipeline is flushed.
    pub open spec fn enabled(self, op: Operation) -> bool {
        match op {
            Operation::Preroll => self.phase == Phase::Uninitialized,
            Operation::Specify { flushing, chunk } => {
                &&& self.phase == Phase::Prerolled || self.phase == Phase::Advanced
                &&& chunk.spec_len() <= self.max_input_frame_count
            },
            Operation::Analyse => self.phase == Phase::Specified,
            Operation::Synthesise => self.phase == Phase::Analysed,
            Operation::Next { flushed } => self.phase == Phase::Synthesised,
        }
    }

    /// The state after `op`.
    ///
    /// The pipeline counts as flushed once the engine says so at the end of a
    /// flushing grain.
    pub open spec fn after(self, op: Operation) -> StretcherView {
        match op {
            Operation::Preroll => StretcherView { phase: Phase::Prerolled, ..self },
            Operation::Specify { flushing, chunk } => StretcherView {
                phase: Phase::Specified,
                chunk,
                flushing,
                ..self
            },
            Operation::Analyse => StretcherView { phase: Phase::Analysed, ..self },
            Operation::Synthesise => StretcherView { phase: Phase::Synthesised, ..self },
            Operation::Next { flushed } => StretcherView {
                phase: if self.flushing && flushed {
                    Phase::Flushed
                } else {
                    Phase::Advanced
                },
                ..self
            },
        }
    }

    /// Whether a planar buffer of `len` samples with channels `stride`
    /// samples apart holds the input of the grain in progress.
    pub open spec fn holds_grain(self, len: nat, stride: nat) -> bool {
        planar_fits(len, stride, self.chunk.spec_len(), self.num_channels)
    }
}

/// The controller of one engine instance.
///
/// It keeps the configuration that the instance was created with and follows
/// the grain protocol, so that each operation can say in which phase it may
/// be called.
#[derive(Debug)]
pub struct Stretcher {
    sample_rate: usize,
    num_channels: usize,
    max_input_frame_count: usize,
    phase: Phase,
    chunk: InputChunk,
    flushing: bool,
}

impl View for Stretcher {
    type V = StretcherView;

    closed spec fn view(&self) -> StretcherView {
        StretcherView {
            sample_rate: self.sample_rate as nat,
            num_channels: self.num_channels as nat,
            max_input_frame_count: self.max_input_frame_count as nat,
            phase: self.phase,
            chunk: self.chunk,
            flushing: self.flushing,
        }
    }
}

/// The message with which construction fails, or `None` where it succeeds.
/// `engine` is the outcome of creating the engine: its bound on the length
/// of an input chunk, or `None` where it could not be created.
pub open spec fn construction_refusal(
    sample_rate: usize,
    num_channels: usize,
    engine: Option<usize>,
) -> Option<Seq<char>> {
    if config_refusal(sample_rate, num_channels) is Some {
        config_refusal(sample_rate, num_channels)
    } else if engine is None {
        Some("Failed to create Bungee stretcher"@)
    } else {
        None
    }
}

impl Stretcher {
    #[verifier::type_invariant]
    spec fn positive(&self) -> bool {
        self.sample_rate > 0 && self.num_channels > 0
    }

    /// A controller for an engine created from `EngineConfig::new` of the
    /// same rate and channel count.
    ///
    /// `engine` is the outcome of that creation: the engine's bound on the
    /// length of an input chunk, or `None` where no engine could be created.
    /// A refused configuration is reported before a missing engine.
    pub fn new(sample_rate: usize, num_channels: usize, engine: Option<usize>) -> (r: Result<
        Stretcher,
        &'static str,
    >)
        ensures
            match r {
                Ok(stretcher) => {
                    &&& construction_refusal(sample_rate, num_channels, engine) is None
                    &&& stretcher@ == StretcherView::fresh(
                        sample_rate as nat,
                        num_channels as nat,
                        engine->0 as nat,
                    )
                },
                Err(message) => construction_refusal(sample_rate, num_channels, engine) == Some(
                    message@,
                ),
            },
    {
        match EngineConfig::new(sample_rate, num_channels) {
            Err(message) => Err(message),
            Ok(_) => match engine {
                None => Err("Failed to create Bungee stretcher"),
                Some(max_input_frame_count) => Ok(
                    Stretcher {
                        sample_rate,
                        num_channels,
                        max_input_frame_count,
                        phase: Phase::Uninitialized,
                        chunk: InputChunk { begin: 0, end: 0 },
                        flushing: false,
                    },
                ),
            },
        }
    }

    /// The sample rate in Hz. It is never zero.
    pub fn sample_rate(&self) -> (rate: usize)
        ensures
            rate == self@.sample_rate,
            rate > 0,
    {
        proof {
            use_type_invariant(self);
        }
        self.sample_rate
    }

    /// The number of channels. It is never zero.
    pub fn num_channels(&self) -> (channels: usize)
        ensures
            channels == self@.num_channels,
            channels > 0,
    {
        proof {
            use_type_invariant(self);
        }
        self.num_channels
    }

    /// The largest number of frames that a grain's input chunk can hold.
    /// Buffers sized to it once are large enough for every grain.
    pub fn max_input_frame_count(&self) -> (frames: usize)
        ensures
            frames == self@.max_input_frame_count,
    {
        self.max_input_frame_count
    }

    /// Where the controller stands in the grain protocol.
    pub fn phase(&self) -> (phase: Phase)
        ensures
            phase == self@.phase,
    {
        self.phase
    }

    /// Records that the first request was adjusted for the run-in. This comes
    /// once, before the first grain is specified.
    pub fn preroll(&mut self)
        requires
            old(self)@.enabled(Operation::Preroll),
        ensures
            final(self)@ == old(self)@.after(Operation::Preroll),
    {
        proof {
            use_type_invariant(&*self);
        }
        self.phase = Phase::Prerolled;
    }

    /// Records that a grain was specified, and returns the input range that
    /// the engine needs for it.
    ///
    /// `begin` and `end` are the range as the engine reported it. `flushing`
    /// says that the grain's position is the flush sentinel.
    pub fn specify_grain(&mut self, flushing: bool, begin: i32, end: i32) -> (chunk: InputChunk)
        requires
            old(self)@.enabled(
                Operation::Specify {
                    flushing,
                    chunk: InputChunk { begin: begin as isize, end: end as isize },
                },
            ),
        ensures
            chunk == (InputChunk { begin: begin as isize, end: end as isize }),
            final(self)@ == old(self)@.after(Operation::Specify { flushing, chunk }),
    {
        proof {
            use_type_invariant(&*self);
        }
        let chunk = InputChunk::new(begin, end);
        self.phase = Phase::Specified;
        self.chunk = chunk;
        self.flushing = flushing;
        chunk
    }

    /// Decides whether a planar buffer of `len` samples, with channels
    /// `channel_stride` samples apart, holds the input of the grain in
    /// progress for every channel.
    pub fn grain_fits(&self, len: usize, channel_stride: usize) -> (ok: bool)
        ensures
            ok == self@.holds_grain(len as nat, channel_stride as nat),
    {
        fits(len, channel_stride, self.chunk.len(), self.num_channels)
    }

    /// Records that the engine consumed the input of the specified grain.
    ///
    /// `data` holds the grain's input chunk for every channel, channel `n`
    /// from sample `n * channel_stride` on.
    pub fn analyse_grain<T>(&mut self, data: &[T], channel_stride: usize)
        requires
            old(self)@.enabled(Operation::Analyse),
            old(self)@.holds_grain(data@.len(), channel_stride as nat),
        ensures
            final(self)@ == old(self)@.after(Operation::Analyse),
    {
        proof {
            use_type_invariant(&*self);
        }
        self.phase = Phase::Analysed;
    }

    /// Records that the engine wrote the output of the analysed grain.
    pub fn synthesise_grain(&mut self)
        requires
            old(self)@.enabled(Operation::Synthesise),
        ensures
            final(self)@ == old(self)@.after(Operation::Synthesise),
    {
        proof {
            use_type_invariant(&*self);
        }
        self.phase = Phase::Synthesised;
    }

    /// Records that the request was advanced to the following grain.
    ///
    /// `flushed` is what the engine says of its pipeline after the grain.
    pub fn next(&mut self, flushed: bool)
        requires
            old(self)@.enabled(Operation::Next { flushed }),
        ensures
            final(self)@ == old(self)@.after(Operation::Next { flushed }),
    {
        proof {
            use_type_invariant(&*self);
        }
        if self.flushing && flushed {
            self.phase = Phase::Flushed;
        } else {
            self.phase = Phase::Advanced;
        }
    }

    /// Whether a flushing grain has drained the pipeline.
    pub fn is_flushed(&self) -> (flushed: bool)
        ensures
            flushed == (self@.phase == Phase::Flushed),
    {
        match self.phase {
            Phase::Flushed => true,
            _ => false,
        }
    }
}

} // verus!
