//! Device configurations, and the sizing of streams and channels from them.
//!
//! A device states how many channels it has, at which rate it runs and which
//! buffer sizes it takes. From that and from the processor's fixed rate follow
//! the number of frames that a device callback should carry, and how much
//! audio the resampling channel between device and processor should hold.
//! Every quantity is an integer: a span of time is a number of frames at a
//! rate, never a fraction.

use vstd::prelude::*;

verus! {

/// The factor between the longer update period and the latency of a channel.
pub const LATENCY_PERIODS: u64 = 8;

/// The factor between the latency of a channel and its capacity.
pub const CAPACITY_LATENCIES: u64 = 16;

/// The format in which a device represents a sample.
#[derive(Clone, Copy, Debug, PartialEq, Eq, Structural)]
pub enum SampleFormat {
    Signed8,
    Signed16,
    Signed32,
    Signed64,
    Unsigned8,
    Unsigned16,
    Unsigned32,
    Unsigned64,
    Single,
    Double,
    Other,
}

/// The buffer sizes, in frames, that a device takes.
#[derive(Clone, Copy, Debug, PartialEq, Eq, Structural)]
pub enum SupportedBufferSize {
    Range { min: u32, max: u32 },
    /// The platform cannot tell before a stream is started.
    Unknown,
}

impl SupportedBufferSize {
    /// A range holds at least one size.
    pub open spec fn is_valid(self) -> bool {
        self matches SupportedBufferSize::Range { min, max } ==> min <= max
    }

    /// The size nearest to `frames` that the device takes.
    pub open spec fn nearest(self, frames: nat) -> nat {
        match self {
            SupportedBufferSize::Range { min, max } => if frames < min {
                min as nat
            } else if frames > max {
                max as nat
            } else {
                frames
            },
            SupportedBufferSize::Unknown => frames,
        }
    }
}

/// The configuration that a device reports as its default.
#[derive(Clone, Copy, Debug, PartialEq, Eq, Structural)]
pub struct DeviceConfig {
    pub channels: u16,
    pub sample_rate: u32,
    pub buffer_size: SupportedBufferSize,
    pub sample_format: SampleFormat,
}

impl DeviceConfig {
    /// A device that can be planned for runs at some rate and takes some
    /// buffer size.
    pub open spec fn is_valid(self) -> bool {
        self.sample_rate > 0 && self.buffer_size.is_valid()
    }
}

/// The configurations that the live streams were built for.
#[derive(Clone, Copy, Debug, PartialEq, Eq, Structural)]
pub struct Streams {
    pub input_config: DeviceConfig,
    pub output_config: DeviceConfig,
}

impl Streams {
    /// Whether what the default devices report differs from what the streams
    /// were built for. A device that is gone, or that reports nothing, counts
    /// as different.
    pub open spec fn changed_by(
        self,
        input: Option<DeviceConfig>,
        output: Option<DeviceConfig>,
    ) -> bool {
        input != Some(self.input_config) || output != Some(self.output_config)
    }

    /// Tells whether the default devices no longer report what the streams
    /// were built for.
    pub fn config_change_detected(
        &self,
        new_input_config: Option<DeviceConfig>,
        new_output_config: Option<DeviceConfig>,
    ) -> (changed: bool)
        ensures
            changed == self.changed_by(new_input_config, new_output_config),
    {
        let input_changed = match new_input_config {
            Some(config) => config != self.input_config,
            None => true,
        };
        let output_changed = match new_output_config {
            Some(config) => config != self.output_config,
            None => true,
        };
        input_changed || output_changed
    }
}

/// What a hardware stream is opened with.
#[derive(Clone, Copy, Debug, PartialEq, Eq, Structural)]
pub struct StreamSettings {
    pub channels: u16,
    pub sample_rate: u32,
    /// The fixed buffer size of the stream, in frames.
    pub frames_per_update: u32,
}

/// A span of time: as long as `frames` frames take at `sample_rate` frames
/// per second.
#[derive(Clone, Copy, Debug, PartialEq, Eq, Structural)]
pub struct Period {
    pub frames: u64,
    pub sample_rate: u32,
}

impl Period {
    /// Whether `self` is at most as long as `other`; both rates are positive.
    pub open spec fn at_most(self, other: Period) -> bool {
        self.frames * other.sample_rate <= other.frames * self.sample_rate
    }

    /// Whether `self` is `factor` times as long as `other`.
    pub open spec fn is_multiple_of(self, factor: nat, other: Period) -> bool {
        self.sample_rate == other.sample_rate && self.frames == factor * other.frames
    }
}

/// What a resampling channel is made with.
#[derive(Clone, Copy, Debug, PartialEq, Eq, Structural)]
pub struct ChannelSettings {
    pub in_sample_rate: u32,
    pub out_sample_rate: u32,
    /// How much audio the channel aims to hold.
    pub latency: Period,
    /// How much audio the channel can hold.
    pub capacity: Period,
}

/// The settings of both hardware streams and of both resampling channels.
#[derive(Clone, Copy, Debug, PartialEq, Eq, Structural)]
pub struct StreamPlan {
    pub input: StreamSettings,
    pub output: StreamSettings,
    pub input_to_processor: ChannelSettings,
    pub processor_to_output: ChannelSettings,
}

/// The number of frames at `device_rate` that take at least as long as
/// `frames` frames at `processor_rate`: the quotient, rounded up.
pub open spec fn scaled_frames(frames: nat, device_rate: nat, processor_rate: nat) -> nat {
    ((frames * device_rate + processor_rate - 1) / (processor_rate as int)) as nat
}

/// The number of frames that a device callback carries, so that it covers one
/// update of the processor: the scaled number, as far as 32 bits hold it and
/// as near as the device takes it.
pub open spec fn device_frames(
    frames_per_update: nat,
    device_rate: nat,
    processor_rate: nat,
    buffer_size: SupportedBufferSize,
) -> nat {
    let scaled = scaled_frames(frames_per_update, device_rate, processor_rate);
    buffer_size.nearest(
        if scaled > u32::MAX {
            u32::MAX as nat
        } else {
            scaled
        },
    )
}

/// The longer of two periods, the second where they are equally long.
pub open spec fn longer_period(first: Period, second: Period) -> Period {
    if first.at_most(second) {
        second
    } else {
        first
    }
}

/// The settings of a channel between a side that updates every `producer`
/// and a side that updates every `consumer`.
pub open spec fn channel_settings_of(
    in_sample_rate: u32,
    out_sample_rate: u32,
    producer: Period,
    consumer: Period,
) -> ChannelSettings {
    let longer = longer_period(producer, consumer);
    ChannelSettings {
        in_sample_rate,
        out_sample_rate,
        latency: Period {
            frames: (LATENCY_PERIODS * longer.frames) as u64,
            sample_rate: longer.sample_rate,
        },
        capacity: Period {
            frames: (CAPACITY_LATENCIES * (LATENCY_PERIODS * longer.frames)) as u64,
            sample_rate: longer.sample_rate,
        },
    }
}

/// The plan for a processor that handles `frames_per_update` frames per
/// update at `processor_rate`, between the two devices.
pub open spec fn stream_plan_of(
    frames_per_update: u32,
    processor_rate: u32,
    input: DeviceConfig,
    output: DeviceConfig,
) -> StreamPlan {
    let input_frames = device_frames(
        frames_per_update as nat,
        input.sample_rate as nat,
        processor_rate as nat,
        input.buffer_size,
    ) as u32;
    let output_frames = device_frames(
        frames_per_update as nat,
        output.sample_rate as nat,
        processor_rate as nat,
        output.buffer_size,
    ) as u32;
    let processor_period = Period { frames: frames_per_update as u64, sample_rate: processor_rate };
    StreamPlan {
        input: StreamSettings {
            channels: input.channels,
            sample_rate: input.sample_rate,
            frames_per_update: input_frames,
        },
        output: StreamSettings {
            channels: output.channels,
            sample_rate: output.sample_rate,
            frames_per_update: output_frames,
        },
        input_to_processor: channel_settings_of(
            input.sample_rate,
            processor_rate,
            Period { frames: input_frames as u64, sample_rate: input.sample_rate },
            processor_period,
        ),
        processor_to_output: channel_settings_of(
            processor_rate,
            output.sample_rate,
            processor_period,
            Period { frames: output_frames as u64, sample_rate: output.sample_rate },
        ),
    }
}

/// Computes the number of frames that a device callback carries.
pub fn frames_per_device_update(
    frames_per_update: u32,
    device_rate: u32,
    processor_rate: u32,
    buffer_size: SupportedBufferSize,
) -> (frames: u32)
    requires
        processor_rate > 0,
        buffer_size.is_valid(),
    ensures
        frames == device_frames(
            frames_per_update as nat,
            device_rate as nat,
            processor_rate as nat,
            buffer_size,
        ),
{
    assert(frames_per_update * device_rate <= 0xffff_ffff * 0xffff_ffff) by (nonlinear_arith)
        requires
            frames_per_update <= 0xffff_ffff,
            device_rate <= 0xffff_ffff,
    ;
    let product: u64 = frames_per_update as u64 * device_rate as u64;
    let scaled: u64 = (product + (processor_rate as u64 - 1)) / processor_rate as u64;
    let wanted: u32 = if scaled > u32::MAX as u64 {
        u32::MAX
    } else {
        scaled as u32
    };
    match buffer_size {
        SupportedBufferSize::Range { min, max } => if wanted < min {
            min
        } else if wanted > max {
            max
        } else {
            wanted
        },
        SupportedBufferSize::Unknown => wanted,
    }
}

/// Picks the longer of two periods of at most 32 bits of frames each.
fn longer_of(first: Period, second: Period) -> (longer: Period)
    requires
        first.frames <= u32::MAX,
        second.frames <= u32::MAX,
    ensures
        longer == longer_period(first, second),
{
    assert(first.frames * second.sample_rate <= 0xffff_ffff * 0xffff_ffff) by (nonlinear_arith)
        requires
            first.frames <= 0xffff_ffff,
            second.sample_rate <= 0xffff_ffff,
    ;
    assert(second.frames * first.sample_rate <= 0xffff_ffff * 0xffff_ffff) by (nonlinear_arith)
        requires
            second.frames <= 0xffff_ffff,
            first.sample_rate <= 0xffff_ffff,
    ;
    if first.frames * second.sample_rate as u64 <= second.frames * first.sample_rate as u64 {
        second
    } else {
        first
    }
}

/// Sizes a resampling channel: it aims to hold eight of the longer of the two
/// update periods, and can hold sixteen times that.
pub fn channel_settings(
    in_sample_rate: u32,
    out_sample_rate: u32,
    producer: Period,
    consumer: Period,
) -> (settings: ChannelSettings)
    requires
        producer.frames <= u32::MAX,
        consumer.frames <= u32::MAX,
    ensures
        settings == channel_settings_of(in_sample_rate, out_sample_rate, producer, consumer),
        settings.latency.is_multiple_of(8, longer_period(producer, consumer)),
        settings.capacity.is_multiple_of(16, settings.latency),
{
    let longer = longer_of(producer, consumer);
    assert(longer.frames <= u32::MAX);
    let latency_frames: u64 = LATENCY_PERIODS * longer.frames;
    let capacity_frames: u64 = CAPACITY_LATENCIES * latency_frames;
    ChannelSettings {
        in_sample_rate,
        out_sample_rate,
        latency: Period { frames: latency_frames, sample_rate: longer.sample_rate },
        capacity: Period { frames: capacity_frames, sample_rate: longer.sample_rate },
    }
}

/// Plans both hardware streams and both resampling channels for the devices'
/// configurations.
pub fn plan_streams(
    frames_per_update: u32,
    processor_rate: u32,
    input: &DeviceConfig,
    output: &DeviceConfig,
) -> (plan: StreamPlan)
    requires
        processor_rate > 0,
        input.is_valid(),
        output.is_valid(),
    ensures
        plan == stream_plan_of(frames_per_update, processor_rate, *input, *output),
{
    let input_frames = frames_per_device_update(
        frames_per_update,
        input.sample_rate,
        processor_rate,
        input.buffer_size,
    );
    let output_frames = frames_per_device_update(
        frames_per_update,
        output.sample_rate,
        processor_rate,
        output.buffer_size,
    );
    let processor_period = Period { frames: frames_per_update as u64, sample_rate: processor_rate };
    StreamPlan {
        input: StreamSettings {
            channels: input.channels,
            sample_rate: input.sample_rate,
            frames_per_update: input_frames,
        },
        output: StreamSettings {
            channels: output.channels,
            sample_rate: output.sample_rate,
            frames_per_update: output_frames,
        },
        input_to_processor: channel_settings(
            input.sample_rate,
            processor_rate,
            Period { frames: input_frames as u64, sample_rate: input.sample_rate },
            processor_period,
        ),
        processor_to_output: channel_settings(
            processor_rate,
            output.sample_rate,
            processor_period,
            Period { frames: output_frames as u64, sample_rate: output.sample_rate },
        ),
    }
}

/// The scaled number of frames is the least that covers the update: it takes
/// at least as long as the processor's frames, and one frame fewer would not.
pub proof fn lemma_scaled_frames_is_least_cover(frames: nat, device_rate: nat, processor_rate: nat)
    requires
        processor_rate > 0,
    ensures
        scaled_frames(frames, device_rate, processor_rate) * processor_rate >= frames
            * device_rate,
        scaled_frames(frames, device_rate, processor_rate) > 0 ==> (scaled_frames(
            frames,
            device_rate,
            processor_rate,
        ) - 1) * processor_rate < frames * device_rate,
{
    let x = (frames * device_rate) as int;
    let d = processor_rate as int;
    let q = (x + d - 1) / d;
    assert(x >= 0) by (nonlinear_arith)
        requires
            x == frames * device_rate,
    ;
    vstd::arithmetic::div_mod::lemma_fundamental_div_mod(x + d - 1, d);
    vstd::arithmetic::div_mod::lemma_mod_bound(x + d - 1, d);
    vstd::arithmetic::div_mod::lemma_div_pos_is_pos(x + d - 1, d);
    assert(d * q == q * d) by (nonlinear_arith);
    assert((q - 1) * d == q * d - d) by (nonlinear_arith);
}

/// Where the rates are equal, a device callback carries exactly one update
/// of the processor, if the device takes that size.
pub proof fn lemma_equal_rates_keep_frames(frames: nat, rate: nat)
    requires
        rate > 0,
    ensures
        scaled_frames(frames, rate, rate) == frames,
{
    let d = rate as int;
    assert(frames * rate == d * frames) by (nonlinear_arith)
        requires
            d == rate,
    ;
    vstd::arithmetic::div_mod::lemma_fundamental_div_mod_converse(
        frames * rate + rate - 1,
        d,
        frames as int,
        d - 1,
    );
}

/// A channel aims to hold more than nothing, and can hold more than that,
/// as long as the processor handles at least one frame per update.
pub proof fn lemma_channel_holds_audio(
    frames_per_update: u32,
    processor_rate: u32,
    input: DeviceConfig,
    output: DeviceConfig,
)
    requires
        frames_per_update > 0,
        processor_rate > 0,
        input.is_valid(),
        output.is_valid(),
    ensures
        ({
            let plan = stream_plan_of(frames_per_update, processor_rate, input, output);
            &&& plan.input_to_processor.latency.frames > 0
            &&& plan.input_to_processor.latency.sample_rate > 0
            &&& plan.input_to_processor.capacity.frames > plan.input_to_processor.latency.frames
            &&& plan.processor_to_output.latency.frames > 0
            &&& plan.processor_to_output.latency.sample_rate > 0
            &&& plan.processor_to_output.capacity.frames > plan.processor_to_output.latency.frames
        }),
{
    let plan = stream_plan_of(frames_per_update, processor_rate, input, output);
    let processor_period = Period { frames: frames_per_update as u64, sample_rate: processor_rate };
    let input_period = Period {
        frames: plan.input.frames_per_update as u64,
        sample_rate: input.sample_rate,
    };
    let output_period = Period {
        frames: plan.output.frames_per_update as u64,
        sample_rate: output.sample_rate,
    };
    lemma_longer_period_is_positive(input_period, processor_period);
    lemma_longer_period_is_positive(output_period, processor_period);
    let into = longer_period(input_period, processor_period);
    let out_of = longer_period(processor_period, output_period);
    assert(0 < into.frames <= u32::MAX);
    assert(0 < out_of.frames <= u32::MAX);
    assert(plan.input_to_processor == channel_settings_of(
        input.sample_rate,
        processor_rate,
        input_period,
        processor_period,
    ));
    assert(plan.processor_to_output == channel_settings_of(
        processor_rate,
        output.sample_rate,
        processor_period,
        output_period,
    ));
    assert(plan.input_to_processor.latency.frames == 8 * into.frames);
    assert(plan.input_to_processor.capacity.frames == 128 * into.frames);
    assert(plan.processor_to_output.latency.frames == 8 * out_of.frames);
    assert(plan.processor_to_output.capacity.frames == 128 * out_of.frames);
}

/// The longer of two periods lasts, if one of them does.
proof fn lemma_longer_period_is_positive(device: Period, processor: Period)
    requires
        processor.frames > 0,
        processor.sample_rate > 0,
        device.sample_rate > 0,
    ensures
        longer_period(device, processor).frames > 0,
        longer_period(processor, device).frames > 0,
        longer_period(device, processor).sample_rate > 0,
        longer_period(processor, device).sample_rate > 0,
{
    if device.frames == 0 {
        assert(device.frames * processor.sample_rate == 0);
        assert(processor.frames * device.sample_rate > 0) by (nonlinear_arith)
            requires
                processor.frames > 0,
                device.sample_rate > 0,
        ;
    }
}

} // verus!
