//! What a resampling channel reports, and what the engine makes of it.

use vstd::prelude::*;
use crate::error::{Error, StreamLink};

verus! {

/// The outcome of pushing interleaved frames into a resampling channel.
#[derive(Clone, Copy, Debug, PartialEq, Eq, Structural)]
pub enum PushStatus {
    /// All frames went in.
    Complete,
    /// The reading side has not started yet: nothing went in.
    OutputNotReady,
    /// The channel was full: only the first frames went in.
    OverflowOccurred { num_frames_pushed: usize },
    /// All frames went in, followed by frames of silence that make up for a
    /// gap on the reading side.
    UnderflowCorrected { num_zero_frames_pushed: usize },
}

/// The outcome of reading interleaved frames from a resampling channel.
#[derive(Clone, Copy, Debug, PartialEq, Eq, Structural)]
pub enum ReadStatus {
    /// The buffer was filled.
    Complete,
    /// The pushing side has not started yet: the buffer holds silence.
    InputNotReady,
    /// The channel ran dry: the buffer ends in silence.
    UnderflowOccurred { num_frames_read: usize },
    /// The buffer was filled, and frames were discarded after it to catch up.
    OverflowCorrected { num_frames_discarded: usize },
}

/// The report that a push on `link` calls for, if any.
pub open spec fn push_report_of(link: StreamLink, status: PushStatus) -> Option<Error> {
    match status {
        PushStatus::Complete => None,
        PushStatus::OutputNotReady => None,
        PushStatus::OverflowOccurred { num_frames_pushed } => Some(
            Error::StreamPushOverflow { name: link, frames: num_frames_pushed },
        ),
        PushStatus::UnderflowCorrected { num_zero_frames_pushed } => Some(
            Error::StreamPushUnderflow { name: link, frames: num_zero_frames_pushed },
        ),
    }
}

/// The report that a read on `link` calls for, if any.
pub open spec fn read_report_of(link: StreamLink, status: ReadStatus) -> Option<Error> {
    match status {
        ReadStatus::Complete => None,
        ReadStatus::InputNotReady => None,
        ReadStatus::UnderflowOccurred { num_frames_read } => Some(
            Error::StreamReadUnderflow { name: link, frames: num_frames_read },
        ),
        ReadStatus::OverflowCorrected { num_frames_discarded } => Some(
            Error::StreamReadOverflow { name: link, frames: num_frames_discarded },
        ),
    }
}

/// Whether a read left data in the buffer that is worth processing.
pub open spec fn input_received_of(status: ReadStatus) -> bool {
    status != ReadStatus::InputNotReady
}

/// Decides what to report after a push: a channel that is not drained yet is
/// no fault, lost or padded frames are.
pub fn push_report(link: StreamLink, status: PushStatus) -> (report: Option<Error>)
    ensures
        report == push_report_of(link, status),
{
    match status {
        PushStatus::Complete => None,
        PushStatus::OutputNotReady => None,
        PushStatus::OverflowOccurred { num_frames_pushed } => Some(
            Error::StreamPushOverflow { name: link, frames: num_frames_pushed },
        ),
        PushStatus::UnderflowCorrected { num_zero_frames_pushed } => Some(
            Error::StreamPushUnderflow { name: link, frames: num_zero_frames_pushed },
        ),
    }
}

/// Decides what to report after a read: a channel that is not fed yet is no
/// fault, missing or discarded frames are.
pub fn read_report(link: StreamLink, status: ReadStatus) -> (report: Option<Error>)
    ensures
        report == read_report_of(link, status),
{
    match status {
        ReadStatus::Complete => None,
        ReadStatus::InputNotReady => None,
        ReadStatus::UnderflowOccurred { num_frames_read } => Some(
            Error::StreamReadUnderflow { name: link, frames: num_frames_read },
        ),
        ReadStatus::OverflowCorrected { num_frames_discarded } => Some(
            Error::StreamReadOverflow { name: link, frames: num_frames_discarded },
        ),
    }
}

/// Decides whether the processor runs on what a read delivered: it does
/// unless the channel was not fed yet.
pub fn input_received(status: ReadStatus) -> (received: bool)
    ensures
        received == input_received_of(status),
{
    match status {
        ReadStatus::InputNotReady => false,
        _ => true,
    }
}

} // verus!
