use audio_stream::error::{default_device, Error, StreamKind, StreamLink};
use audio_stream::status::{input_received, push_report, read_report, PushStatus, ReadStatus};

#[test]
fn streams_and_links_have_names() {
    assert_eq!(StreamKind::Input.name(), "input");
    assert_eq!(StreamKind::Output.name(), "output");
    assert_eq!(StreamLink::InputToProcessor.name(), "input -> processor");
    assert_eq!(StreamLink::ProcessorToOutput.name(), "processor -> output");
}

#[test]
fn a_missing_device_is_an_error() {
    assert_eq!(default_device(StreamKind::Input, Some(7)), Ok(7));
    assert_eq!(
        default_device(StreamKind::Input, None::<u8>),
        Err(Error::DefaultDeviceUnavailable { stream: StreamKind::Input })
    );
    assert_eq!(
        default_device(StreamKind::Output, None::<u8>),
        Err(Error::DefaultDeviceUnavailable { stream: StreamKind::Output })
    );
}

#[test]
fn a_push_that_went_in_or_found_no_reader_is_not_reported() {
    assert_eq!(push_report(StreamLink::InputToProcessor, PushStatus::Complete), None);
    assert_eq!(push_report(StreamLink::InputToProcessor, PushStatus::OutputNotReady), None);
}

#[test]
fn an_overflowing_push_is_reported() {
    assert_eq!(
        push_report(
            StreamLink::InputToProcessor,
            PushStatus::OverflowOccurred { num_frames_pushed: 12 }
        ),
        Some(Error::StreamPushOverflow { name: StreamLink::InputToProcessor, frames: 12 })
    );
}

#[test]
fn a_padded_push_is_reported() {
    assert_eq!(
        push_report(
            StreamLink::InputToProcessor,
            PushStatus::UnderflowCorrected { num_zero_frames_pushed: 40 }
        ),
        Some(Error::StreamPushUnderflow { name: StreamLink::InputToProcessor, frames: 40 })
    );
}

#[test]
fn a_read_that_was_filled_or_found_no_writer_is_not_reported() {
    assert_eq!(read_report(StreamLink::ProcessorToOutput, ReadStatus::Complete), None);
    assert_eq!(read_report(StreamLink::ProcessorToOutput, ReadStatus::InputNotReady), None);
}

#[test]
fn a_read_that_ran_dry_is_reported() {
    assert_eq!(
        read_report(
            StreamLink::ProcessorToOutput,
            ReadStatus::UnderflowOccurred { num_frames_read: 5 }
        ),
        Some(Error::StreamReadUnderflow { name: StreamLink::ProcessorToOutput, frames: 5 })
    );
}

#[test]
fn a_read_that_discarded_frames_is_reported() {
    assert_eq!(
        read_report(
            StreamLink::ProcessorToOutput,
            ReadStatus::OverflowCorrected { num_frames_discarded: 77 }
        ),
        Some(Error::StreamReadOverflow { name: StreamLink::ProcessorToOutput, frames: 77 })
    );
}

#[test]
fn input_counts_as_received_unless_the_channel_was_not_fed() {
    assert!(input_received(ReadStatus::Complete));
    assert!(!input_received(ReadStatus::InputNotReady));
    assert!(input_received(ReadStatus::UnderflowOccurred { num_frames_read: 0 }));
    assert!(input_received(ReadStatus::OverflowCorrected { num_frames_discarded: 1 }));
}

#[test]
fn an_error_can_be_copied() {
    let error = Error::DeviceHasNoAvailableChannels {
        device_name: "line in".to_string(),
        stream: StreamKind::Input,
    };
    assert_eq!(error.clone(), error);
    let other = Error::InvalidStreamBufferSize { buffer_size: 3, max_size: 2 };
    assert_eq!(other.clone(), other);
    assert_eq!(Error::FramesMissing { missing_frames: 4 }.clone(), Error::FramesMissing {
        missing_frames: 4
    });
    assert_eq!(Error::ProcessorChannelSendFailed.clone(), Error::ProcessorChannelSendFailed);
}
