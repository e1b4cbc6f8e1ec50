//! The errors and diagnostics of the engine.

use vstd::prelude::*;

verus! {

/// The direction of a hardware stream.
#[derive(Clone, Copy, Debug, PartialEq, Eq, Structural)]
pub enum StreamKind {
    Input,
    Output,
}

impl StreamKind {
    /// The word by which messages call the stream.
    pub fn name(&self) -> (name: &'static str)
        ensures
            *self == StreamKind::Input ==> name@ == "input"@,
            *self == StreamKind::Output ==> name@ == "output"@,
    {
        match self {
            StreamKind::Input => "input",
            StreamKind::Output => "output",
        }
    }
}

/// One of the two resampling channels around the processor.
#[derive(Clone, Copy, Debug, PartialEq, Eq, Structural)]
pub enum StreamLink {
    InputToProcessor,
    ProcessorToOutput,
}

impl StreamLink {
    /// The words by which messages call the channel.
    pub fn name(&self) -> (name: &'static str)
        ensures
            *self == StreamLink::InputToProcessor ==> name@ == "input -> processor"@,
            *self == StreamLink::ProcessorToOutput ==> name@ == "processor -> output"@,
    {
        match self {
            StreamLink::InputToProcessor => "input -> processor",
            StreamLink::ProcessorToOutput => "processor -> output",
        }
    }
}

/// What can go wrong while streams are set up or while audio is transported.
///
/// None of these ends the engine: a failed setup is tried again at the next
/// poll, and a transport report only says that samples were lost or padded.
#[derive(Debug, PartialEq, Eq)]
pub enum Error {
    /// No default device exists for the stream.
    DefaultDeviceUnavailable { stream: StreamKind },
    /// The device offers no channel at all.
    DeviceHasNoAvailableChannels { device_name: String, stream: StreamKind },
    /// Fewer frames arrived than were asked for.
    FramesMissing { missing_frames: usize },
    /// The buffer size lies outside what the stream accepts.
    InvalidStreamBufferSize { buffer_size: u32, max_size: u32 },
    /// The processor no longer listens for stream channels.
    ProcessorChannelSendFailed,
    /// The channel ran dry and was padded with `frames` frames of silence.
    StreamPushUnderflow { name: StreamLink, frames: usize },
    /// The channel was full: only `frames` of the pushed frames went in.
    StreamPushOverflow { name: StreamLink, frames: usize },
    /// The channel ran dry: only `frames` frames could be read.
    StreamReadUnderflow { name: StreamLink, frames: usize },
    /// The channel ran over and `frames` frames were discarded.
    StreamReadOverflow { name: StreamLink, frames: usize },
}

impl Clone for Error {
    fn clone(&self) -> (copy: Self)
        ensures
            copy == *self,
    {
        match self {
            Error::DefaultDeviceUnavailable { stream } => Error::DefaultDeviceUnavailable {
                stream: *stream,
            },
            Error::DeviceHasNoAvailableChannels {
                device_name,
                stream,
            } => Error::DeviceHasNoAvailableChannels {
                device_name: device_name.clone(),
                stream: *stream,
            },
            Error::FramesMissing { missing_frames } => Error::FramesMissing {
                missing_frames: *missing_frames,
            },
            Error::InvalidStreamBufferSize {
                buffer_size,
                max_size,
            } => Error::InvalidStreamBufferSize { buffer_size: *buffer_size, max_size: *max_size },
            Error::ProcessorChannelSendFailed => Error::ProcessorChannelSendFailed,
            Error::StreamPushUnderflow { name, frames } => Error::StreamPushUnderflow {
                name: *name,
                frames: *frames,
            },
            Error::StreamPushOverflow { name, frames } => Error::StreamPushOverflow {
                name: *name,
                frames: *frames,
            },
            Error::StreamReadUnderflow { name, frames } => Error::StreamReadUnderflow {
                name: *name,
                frames: *frames,
            },
            Error::StreamReadOverflow { name, frames } => Error::StreamReadOverflow {
                name: *name,
                frames: *frames,
            },
        }
    }
}

pub type Result<T> = std::result::Result<T, Error>;

/// Turns the outcome of looking for a default device into a result.
pub fn default_device<D>(stream: StreamKind, device: Option<D>) -> (found: Result<D>)
    ensures
        device matches Some(d) ==> found == Result::<D>::Ok(d),
        device is None ==> found == Result::<D>::Err(
            Error::DefaultDeviceUnavailable { stream },
        ),
{
    match device {
        Some(d) => Ok(d),
        None => Err(Error::DefaultDeviceUnavailable { stream }),
    }
}

} // verus!
