use audio_stream::config::{
    channel_settings, frames_per_device_update, plan_streams, ChannelSettings, DeviceConfig,
    Period, SampleFormat, StreamSettings, Streams, SupportedBufferSize,
};

fn device(channels: u16, sample_rate: u32, buffer_size: SupportedBufferSize) -> DeviceConfig {
    DeviceConfig { channels, sample_rate, buffer_size, sample_format: SampleFormat::Single }
}

#[test]
fn equal_rates_keep_the_number_of_frames() {
    assert_eq!(frames_per_device_update(128, 44100, 44100, SupportedBufferSize::Unknown), 128);
    assert_eq!(frames_per_device_update(1, 7, 7, SupportedBufferSize::Unknown), 1);
}

#[test]
fn a_faster_device_carries_more_frames_rounded_up() {
    assert_eq!(frames_per_device_update(128, 48000, 44100, SupportedBufferSize::Unknown), 140);
    assert_eq!(frames_per_device_update(128, 96000, 44100, SupportedBufferSize::Unknown), 279);
    assert_eq!(frames_per_device_update(128, 88200, 44100, SupportedBufferSize::Unknown), 256);
}

#[test]
fn a_slower_device_carries_fewer_frames_rounded_up() {
    assert_eq!(frames_per_device_update(128, 22050, 44100, SupportedBufferSize::Unknown), 64);
    assert_eq!(frames_per_device_update(128, 16000, 44100, SupportedBufferSize::Unknown), 47);
    assert_eq!(frames_per_device_update(128, 1, 44100, SupportedBufferSize::Unknown), 1);
    assert_eq!(frames_per_device_update(128, 0, 44100, SupportedBufferSize::Unknown), 0);
}

#[test]
fn the_number_of_frames_stays_within_what_the_device_takes() {
    let range = SupportedBufferSize::Range { min: 256, max: 512 };
    assert_eq!(frames_per_device_update(128, 48000, 44100, range), 256);
    assert_eq!(frames_per_device_update(1024, 48000, 44100, range), 512);
    assert_eq!(frames_per_device_update(300, 44100, 44100, range), 300);
    let exact = SupportedBufferSize::Range { min: 480, max: 480 };
    assert_eq!(frames_per_device_update(128, 48000, 44100, exact), 480);
}

#[test]
fn the_number_of_frames_stops_at_what_32_bits_hold() {
    assert_eq!(
        frames_per_device_update(u32::MAX, u32::MAX, 1, SupportedBufferSize::Unknown),
        u32::MAX
    );
    assert_eq!(
        frames_per_device_update(65536, 65536, 1, SupportedBufferSize::Unknown),
        u32::MAX
    );
    assert_eq!(
        frames_per_device_update(65536, 65535, 1, SupportedBufferSize::Unknown),
        4294901760
    );
}

#[test]
fn a_channel_holds_eight_of_the_longer_period_and_can_hold_sixteen_times_that() {
    let device = Period { frames: 140, sample_rate: 48000 };
    let processor = Period { frames: 128, sample_rate: 44100 };
    assert_eq!(
        channel_settings(48000, 44100, device, processor),
        ChannelSettings {
            in_sample_rate: 48000,
            out_sample_rate: 44100,
            latency: Period { frames: 1120, sample_rate: 48000 },
            capacity: Period { frames: 17920, sample_rate: 48000 },
        }
    );
    let short = Period { frames: 64, sample_rate: 44100 };
    assert_eq!(
        channel_settings(44100, 44100, processor, short),
        ChannelSettings {
            in_sample_rate: 44100,
            out_sample_rate: 44100,
            latency: Period { frames: 1024, sample_rate: 44100 },
            capacity: Period { frames: 16384, sample_rate: 44100 },
        }
    );
}

#[test]
fn of_two_equally_long_periods_the_consumer_s_is_taken() {
    let producer = Period { frames: 128, sample_rate: 44100 };
    let consumer = Period { frames: 256, sample_rate: 88200 };
    let settings = channel_settings(44100, 88200, producer, consumer);
    assert_eq!(settings.latency, Period { frames: 2048, sample_rate: 88200 });
    assert_eq!(settings.capacity, Period { frames: 32768, sample_rate: 88200 });
}

#[test]
fn a_plan_covers_both_streams_and_both_channels() {
    let input = device(1, 48000, SupportedBufferSize::Unknown);
    let output = device(6, 44100, SupportedBufferSize::Range { min: 512, max: 4096 });
    let plan = plan_streams(128, 44100, &input, &output);
    assert_eq!(
        plan.input,
        StreamSettings { channels: 1, sample_rate: 48000, frames_per_update: 140 }
    );
    assert_eq!(
        plan.output,
        StreamSettings { channels: 6, sample_rate: 44100, frames_per_update: 512 }
    );
    assert_eq!(
        plan.input_to_processor,
        ChannelSettings {
            in_sample_rate: 48000,
            out_sample_rate: 44100,
            latency: Period { frames: 1120, sample_rate: 48000 },
            capacity: Period { frames: 17920, sample_rate: 48000 },
        }
    );
    assert_eq!(
        plan.processor_to_output,
        ChannelSettings {
            in_sample_rate: 44100,
            out_sample_rate: 44100,
            latency: Period { frames: 4096, sample_rate: 44100 },
            capacity: Period { frames: 65536, sample_rate: 44100 },
        }
    );
}

#[test]
fn the_planned_latency_matches_the_arithmetic_on_seconds() {
    let input = device(2, 48000, SupportedBufferSize::Unknown);
    let output = device(2, 44100, SupportedBufferSize::Unknown);
    let plan = plan_streams(128, 44100, &input, &output);
    let latency = plan.input_to_processor.latency;
    let seconds = latency.frames as f64 / latency.sample_rate as f64;
    let input_update = 140.0f64 / 48000.0;
    let processor_update = 128.0f64 / 44100.0;
    assert_eq!(seconds, input_update.max(processor_update) * 8.0);
    let capacity = plan.input_to_processor.capacity;
    assert_eq!(capacity.frames as f64 / capacity.sample_rate as f64, seconds * 16.0);
}

#[test]
fn unchanged_devices_are_no_change() {
    let input = device(2, 48000, SupportedBufferSize::Unknown);
    let output = device(2, 44100, SupportedBufferSize::Range { min: 16, max: 2048 });
    let streams = Streams { input_config: input, output_config: output };
    assert!(!streams.config_change_detected(Some(input), Some(output)));
}

#[test]
fn a_changed_or_missing_device_is_a_change() {
    let input = device(2, 48000, SupportedBufferSize::Unknown);
    let output = device(2, 44100, SupportedBufferSize::Range { min: 16, max: 2048 });
    let streams = Streams { input_config: input, output_config: output };
    let faster = device(2, 96000, SupportedBufferSize::Unknown);
    let narrower = device(1, 44100, SupportedBufferSize::Range { min: 16, max: 2048 });
    let resized = device(2, 44100, SupportedBufferSize::Range { min: 16, max: 1024 });
    let reformatted = DeviceConfig { sample_format: SampleFormat::Signed16, ..input };
    assert!(streams.config_change_detected(Some(faster), Some(output)));
    assert!(streams.config_change_detected(Some(input), Some(narrower)));
    assert!(streams.config_change_detected(Some(input), Some(resized)));
    assert!(streams.config_change_detected(Some(reformatted), Some(output)));
    assert!(streams.config_change_detected(None, Some(output)));
    assert!(streams.config_change_detected(Some(input), None));
    assert!(streams.config_change_detected(None, None));
    assert!(streams.config_change_detected(Some(output), Some(input)));
}
