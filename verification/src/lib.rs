//! The verified core of a real-time audio streaming engine.
//!
//! Hardware streams run at whatever rate, channel count and buffer size the
//! device dictates; the processing stage runs at a fixed rate on interleaved
//! stereo frames. This crate holds the rules that sit between the two: the
//! bounded message channels, the channel-layout adapters, the sizing of the
//! streams and of the channels between them, the stream manager's state
//! machine, and the processor's loop with its pacing. Device access, threads
//! and floating-point arithmetic stay with the caller, who carries out what
//! the state machines ask for and hands back what came of it.

pub mod channel;
pub mod config;
pub mod error;
pub mod layout;
pub mod manager;
pub mod freeverb;
pub mod message;
pub mod parameter;
pub mod processor;
pub mod status;

pub use crate::channel::{
    FromProcessorReceiver, FromProcessorSender, MessageChannel, ToProcessorReceiver,
    ToProcessorSender,
};
pub use crate::error::{Error, Result};
pub use crate::message::{PopMessage, PushMessage, ToProcessor};

use vstd::prelude::*;

verus! {

/// The number of channels of the canonical, interleaved frame format.
pub const CHANNELS: usize = 2;

/// The number of frames that the processor handles per update.
pub const FRAMES_PER_UPDATE: usize = 128;

/// The sample rate of the processing stage, in frames per second.
pub const PROCESSOR_SAMPLE_RATE: usize = 44100;

/// The number of messages that a message channel holds.
pub const CHANNEL_CAPACITY: usize = 1024;

/// The time that lies `span` after `time`, as far as 64 bits hold it.
pub open spec fn later(time: u64, span: u64) -> u64 {
    if time + span > u64::MAX {
        u64::MAX
    } else {
        (time + span) as u64
    }
}

/// Computes the time that lies `span` after `time`.
pub fn time_after(time: u64, span: u64) -> (sum: u64)
    ensures
        sum == later(time, span),
{
    if time > u64::MAX - span {
        u64::MAX
    } else {
        time + span
    }
}

} // verus!
