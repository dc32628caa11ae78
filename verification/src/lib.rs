//! Bookkeeping for block streaming on top of a grain-based audio stretching
//! engine.
//!
//! The engine itself (the spectral processing that turns one grain of input
//! into a slice of output) is driven by the embedding program. This crate
//! holds everything around it that can be decided on plain values: which
//! engine parameters a configuration leads to, in which order the grain
//! operations may follow one another, whether a planar buffer is large enough
//! for what the engine will read or write, how far the input has advanced, and
//! how many warm-up frames are still to be discarded.

pub mod chunk;
pub mod laws;
pub mod output;
pub mod planar;
pub mod stream;
pub mod stretcher;

pub use chunk::InputChunk;
pub use chunk::SampleRates;
pub use stretcher::EngineConfig;
pub use stretcher::Phase;
pub use stretcher::Stretcher;
pub use stream::BlockError;
pub use stream::Stream;
pub use output::OutputChunk;
