//! The entry points of the native engine, as values.
//!
//! A `Call` says which entry point is to be invoked and with which arguments,
//! in plain integers. It holds no pointer to sample or result memory: the
//! caller that performs the call supplies the buffer it was given and the
//! slot the engine writes to.

use vstd::prelude::*;

verus! {

/// One invocation of a native entry point.
///
/// `handle` is the address of the native state the call works on, as the
/// engine returned it from `Init`.
#[derive(Clone, Copy, PartialEq, Eq, Debug, Structural)]
#[must_use]
pub enum Call {
    /// Allocate a native state. The engine answers with a handle, which is
    /// null if it could not allocate.
    Init { channels: u32, samplerate: u64, mode: i32 },
    /// Free a native state. The engine answers with nothing.
    Destroy { handle: usize },
    /// Give a channel its role. Answers with a status.
    SetChannel { handle: usize, channel_number: u32, value: i32 },
    /// Change channel count and sample rate. Answers with a status.
    ChangeParameters { handle: usize, channels: u32, samplerate: u64 },
    /// Bound the window, in milliseconds, that can be queried. Answers with a status.
    SetMaxWindow { handle: usize, window: u64 },
    /// Bound the history that is kept. Answers with a status.
    SetMaxHistory { handle: usize, history: u64 },
    /// Feed `frames` frames of 16-bit integer samples. Answers with a status.
    AddFramesShort { handle: usize, frames: usize },
    /// Feed `frames` frames of 32-bit integer samples. Answers with a status.
    AddFramesInt { handle: usize, frames: usize },
    /// Feed `frames` frames of 32-bit floating-point samples. Answers with a status.
    AddFramesFloat { handle: usize, frames: usize },
    /// Feed `frames` frames of 64-bit floating-point samples. Answers with a status.
    AddFramesDouble { handle: usize, frames: usize },
    /// Integrated loudness. Answers with a status and a value.
    LoudnessGlobal { handle: usize },
    /// Momentary loudness. Answers with a status and a value.
    LoudnessMomentary { handle: usize },
    /// Short-term loudness. Answers with a status and a value.
    LoudnessShortterm { handle: usize },
    /// Loudness over the last `window` milliseconds. Answers with a status and a value.
    LoudnessWindow { handle: usize, window: u64 },
    /// Loudness range. Answers with a status and a value.
    LoudnessRange { handle: usize },
    /// Sample peak of a channel. Answers with a status and a value.
    SamplePeak { handle: usize, channel_number: u32 },
    /// Sample peak of a channel in the frames fed last. Answers with a status and a value.
    PrevSamplePeak { handle: usize, channel_number: u32 },
    /// True peak of a channel. Answers with a status and a value.
    TruePeak { handle: usize, channel_number: u32 },
    /// True peak of a channel in the frames fed last. Answers with a status and a value.
    PrevTruePeak { handle: usize, channel_number: u32 },
}

} // verus!
