//! Adapters between a device's channel layout and the canonical stereo frame.
//!
//! A device delivers and takes interleaved frames of as many channels as it
//! has. The processor works on interleaved frames of two channels. On the
//! way in, a single channel is doubled, two channels pass through, and of
//! more than two the first two are kept. On the way out, a single channel
//! gets the two canonical channels mixed, two channels pass through, and of
//! more than two the first two are written and the rest left alone.
//!
//! Nothing here allocates or blocks, so all of it may run inside a hardware
//! callback.

use vstd::prelude::*;
use crate::error::{Error, Result, StreamKind};

verus! {

/// The position in the device's data that feeds position `k` of the
/// canonical buffer, if any does.
pub open spec fn capture_source(channels: nat, data_len: nat, buffer_len: nat, k: int) -> Option<
    int,
> {
    if channels == 1 {
        if k / 2 < data_len && k / 2 < buffer_len / 2 {
            Some(k / 2)
        } else {
            None
        }
    } else if channels == 2 {
        if k < data_len {
            Some(k)
        } else {
            None
        }
    } else {
        let frame = k / 2;
        let channel = k % 2;
        if frame < data_len / channels && frame < buffer_len / 2 {
            Some(channels * frame + channel)
        } else {
            None
        }
    }
}

/// The canonical buffer after the device's `data` was captured into it.
/// Positions that the data does not reach keep what they held.
pub open spec fn captured<T>(channels: nat, data: Seq<T>, before: Seq<T>) -> Seq<T> {
    Seq::new(
        before.len(),
        |k: int|
            match capture_source(channels, data.len(), before.len(), k) {
                Some(j) => data[j],
                None => before[k],
            },
    )
}

/// The position in the canonical buffer that is copied to position `j` of the
/// device's data, if any is.
pub open spec fn render_source(channels: nat, buffer_len: nat, data_len: nat, j: int) -> Option<
    int,
> {
    if channels == 2 {
        if j < buffer_len {
            Some(j)
        } else {
            None
        }
    } else if channels > 2 {
        let frame = j / (channels as int);
        let channel = j % (channels as int);
        if channel < 2 && frame < data_len / channels && frame < buffer_len / 2 {
            Some(2 * frame + channel)
        } else {
            None
        }
    } else {
        None
    }
}

/// Whether position `j` of a single-channel device's data receives the mix of
/// canonical frame `j`.
pub open spec fn render_mixes(channels: nat, buffer_len: nat, data_len: nat, j: int) -> bool {
    channels == 1 && j < data_len && j < buffer_len / 2
}

/// Whether `after` is what rendering the canonical `buffer` makes of the
/// device's data `before`, where `mix` folds a frame into one sample.
pub open spec fn rendered<T, F: Fn(T, T) -> T>(
    channels: nat,
    buffer: Seq<T>,
    before: Seq<T>,
    after: Seq<T>,
    mix: F,
) -> bool {
    &&& after.len() == before.len()
    &&& forall|j: int|
        0 <= j < before.len() ==> if render_mixes(channels, buffer.len(), before.len(), j) {
            call_ensures(mix, (buffer[2 * j], buffer[2 * j + 1]), #[trigger] after[j])
        } else {
            #[trigger] after[j] == match render_source(
                channels,
                buffer.len(),
                before.len(),
                j,
            ) {
                Some(k) => buffer[k],
                None => before[j],
            }
        }
}

/// Silence renders to silence: where the canonical buffer holds nothing but
/// `silence` and the mix of silence is silence, every sample that rendering
/// writes is `silence`, and every other sample is left as it was. On a device
/// of two channels whose data the buffer covers, all of the data is silence.
pub proof fn lemma_silence_renders_to_silence<T, F: Fn(T, T) -> T>(
    channels: nat,
    buffer: Seq<T>,
    before: Seq<T>,
    after: Seq<T>,
    mix: F,
    silence: T,
)
    requires
        rendered(channels, buffer, before, after, mix),
        forall|k: int| 0 <= k < buffer.len() ==> buffer[k] == silence,
        forall|mixed: T| call_ensures(mix, (silence, silence), mixed) ==> mixed == silence,
    ensures
        after.len() == before.len(),
        forall|j: int|
            0 <= j < after.len() ==> #[trigger] after[j] == silence || after[j] == before[j],
        channels == 2 && before.len() <= buffer.len() ==> forall|j: int|
            0 <= j < after.len() ==> #[trigger] after[j] == silence,
{
    assert forall|j: int| 0 <= j < after.len() implies #[trigger] after[j] == silence || after[j]
        == before[j] by {
        if render_mixes(channels, buffer.len(), before.len(), j) {
            assert(call_ensures(mix, (buffer[2 * j], buffer[2 * j + 1]), after[j]));
        } else {
            match render_source(channels, buffer.len(), before.len(), j) {
                Some(k) => {
                    lemma_render_source_is_in_the_buffer(channels, buffer.len(), before.len(), j);
                },
                None => {},
            }
        }
    }
    if channels == 2 && before.len() <= buffer.len() {
        assert forall|j: int| 0 <= j < after.len() implies #[trigger] after[j] == silence by {
            assert(render_source(channels, buffer.len(), before.len(), j) == Some(j));
        }
    }
}

/// Rendering copies from inside the canonical buffer only.
pub proof fn lemma_render_source_is_in_the_buffer(
    channels: nat,
    buffer_len: nat,
    data_len: nat,
    j: int,
)
    requires
        0 <= j < data_len,
        render_source(channels, buffer_len, data_len, j) is Some,
    ensures
        0 <= render_source(channels, buffer_len, data_len, j)->Some_0 < buffer_len,
{
    if channels > 2 {
        let frame = j / (channels as int);
        let channel = j % (channels as int);
        vstd::arithmetic::div_mod::lemma_div_pos_is_pos(j, channels as int);
        vstd::arithmetic::div_mod::lemma_mod_bound(j, channels as int);
        assert(frame < buffer_len / 2);
        assert(2 * frame + channel < buffer_len);
    }
}

/// A canonical buffer for `frames_per_update` frames, filled with `silence`.
pub fn canonical_buffer<T: Copy>(frames_per_update: u32, silence: T) -> (buffer: Vec<T>)
    requires
        frames_per_update * 2 <= usize::MAX,
    ensures
        buffer@.len() == frames_per_update * 2,
        forall|k: int| 0 <= k < buffer@.len() ==> buffer@[k] == silence,
{
    let samples: usize = frames_per_update as usize * 2;
    let mut buffer: Vec<T> = Vec::with_capacity(samples);
    let mut k: usize = 0;
    while k < samples
        invariant
            k <= samples,
            buffer@.len() == k,
            forall|i: int| 0 <= i < k ==> buffer@[i] == silence,
        decreases samples - k,
    {
        buffer.push(silence);
        k += 1;
    }
    buffer
}

/// The channel layout of an input device.
pub struct InputLayout {
    channels: usize,
}

impl InputLayout {
    /// The number of channels of the device, which is never zero.
    pub closed spec fn channel_count(&self) -> nat {
        self.channels as nat
    }

    #[verifier::type_invariant]
    spec fn has_channels(&self) -> bool {
        self.channels >= 1
    }

    /// Accepts a device with at least one channel, and turns down one that
    /// has none.
    pub fn new(device_name: String, channels: usize) -> (layout: Result<InputLayout>)
        ensures
            channels == 0 ==> layout == Result::<InputLayout>::Err(
                Error::DeviceHasNoAvailableChannels { device_name, stream: StreamKind::Input },
            ),
            channels != 0 ==> layout is Ok && layout->Ok_0.channel_count() == channels,
    {
        if channels == 0 {
            Err(Error::DeviceHasNoAvailableChannels { device_name, stream: StreamKind::Input })
        } else {
            Ok(InputLayout { channels })
        }
    }

    pub fn channels(&self) -> (channels: usize)
        ensures
            channels == self.channel_count(),
            channels >= 1,
    {
        proof {
            use_type_invariant(self);
        }
        self.channels
    }

    /// Captures the device's `data` into the canonical `buffer`.
    pub fn capture<T: Copy>(&self, data: &[T], buffer: &mut [T])
        ensures
            final(buffer)@ == captured(self.channel_count(), data@, old(buffer)@),
    {
        proof {
            use_type_invariant(self);
        }
        if self.channels == 1 {
            capture_mono(data, buffer);
        } else if self.channels == 2 {
            capture_stereo(data, buffer);
        } else {
            capture_first_two(self.channels, data, buffer);
        }
    }
}

fn capture_mono<T: Copy>(data: &[T], buffer: &mut [T])
    ensures
        final(buffer)@ == captured(1, data@, old(buffer)@),
{
    let half: usize = buffer.len() / 2;
    let frames: usize = if data.len() < half {
        data.len()
    } else {
        half
    };
    let mut i: usize = 0;
    while i < frames
        invariant
            i <= frames,
            frames <= data@.len(),
            frames <= old(buffer)@.len() / 2,
            buffer@.len() == old(buffer)@.len(),
            buffer@.len() <= usize::MAX,
            data@.len() <= usize::MAX,
            forall|k: int| 0 <= k < 2 * i ==> buffer@[k] == data@[k / 2],
            forall|k: int| 2 * i <= k < buffer@.len() ==> buffer@[k] == old(buffer)@[k],
        decreases frames - i,
    {
        let sample = data[i];
        buffer[2 * i] = sample;
        buffer[2 * i + 1] = sample;
        i += 1;
    }
    assert(buffer@ =~= captured(1, data@, old(buffer)@));
}

fn capture_stereo<T: Copy>(data: &[T], buffer: &mut [T])
    ensures
        final(buffer)@ == captured(2, data@, old(buffer)@),
{
    let samples: usize = if data.len() < buffer.len() {
        data.len()
    } else {
        buffer.len()
    };
    let mut k: usize = 0;
    while k < samples
        invariant
            k <= samples,
            samples <= data@.len(),
            samples <= old(buffer)@.len(),
            buffer@.len() == old(buffer)@.len(),
            buffer@.len() <= usize::MAX,
            data@.len() <= usize::MAX,
            forall|i: int| 0 <= i < k ==> buffer@[i] == data@[i],
            forall|i: int| k <= i < buffer@.len() ==> buffer@[i] == old(buffer)@[i],
        decreases samples - k,
    {
        buffer[k] = data[k];
        k += 1;
    }
    assert(buffer@ =~= captured(2, data@, old(buffer)@));
}

/// Whether position `k` of the canonical buffer holds the sample of its frame
/// and channel in data of `channels` channels.
spec fn holds_first_two<T>(channels: usize, data: Seq<T>, buffer: Seq<T>, k: int) -> bool {
    &&& 0 <= channels * (k / 2) + k % 2 < data.len()
    &&& buffer[k] == data[channels * (k / 2) + k % 2]
}

fn capture_first_two<T: Copy>(channels: usize, data: &[T], buffer: &mut [T])
    requires
        channels > 2,
    ensures
        final(buffer)@ == captured(channels as nat, data@, old(buffer)@),
{
    let half: usize = buffer.len() / 2;
    let device_frames: usize = data.len() / channels;
    let frames: usize = if device_frames < half {
        device_frames
    } else {
        half
    };
    let mut f: usize = 0;
    while f < frames
        invariant
            channels > 2,
            f <= frames,
            frames <= data@.len() / (channels as nat),
            frames <= old(buffer)@.len() / 2,
            buffer@.len() == old(buffer)@.len(),
            buffer@.len() <= usize::MAX,
            data@.len() <= usize::MAX,
            forall|k: int| 0 <= k < 2 * f ==> #[trigger] holds_first_two(channels, data@, buffer@, k),
            forall|k: int| 2 * f <= k < buffer@.len() ==> buffer@[k] == old(buffer)@[k],
        decreases frames - f,
    {
        proof {
            lemma_frame_in_bounds(channels as int, data@.len() as int, f as int);
        }
        let start: usize = channels * f;
        let ghost earlier = buffer@;
        buffer[2 * f] = data[start];
        buffer[2 * f + 1] = data[start + 1];
        assert forall|k: int| 0 <= k < 2 * (f + 1) implies #[trigger] holds_first_two(
            channels,
            data@,
            buffer@,
            k,
        ) by {
            if k < 2 * f {
                assert(holds_first_two(channels, data@, earlier, k));
            } else {
                assert(k / 2 == f as int);
                assert(channels * (k / 2) == start);
            }
        }
        f += 1;
    }
    assert forall|k: int| 0 <= k < buffer@.len() implies buffer@[k] == captured(
        channels as nat,
        data@,
        old(buffer)@,
    )[k] by {
        if k < 2 * f {
            assert(holds_first_two(channels, data@, buffer@, k));
        }
    }
    assert(buffer@ =~= captured(channels as nat, data@, old(buffer)@));
}

/// The channel layout of an output device.
pub struct OutputLayout {
    channels: usize,
}

impl OutputLayout {
    /// The number of channels of the device, which is never zero.
    pub closed spec fn channel_count(&self) -> nat {
        self.channels as nat
    }

    #[verifier::type_invariant]
    spec fn has_channels(&self) -> bool {
        self.channels >= 1
    }

    /// Accepts a device with at least one channel, and turns down one that
    /// has none.
    pub fn new(device_name: String, channels: usize) -> (layout: Result<OutputLayout>)
        ensures
            channels == 0 ==> layout == Result::<OutputLayout>::Err(
                Error::DeviceHasNoAvailableChannels { device_name, stream: StreamKind::Output },
            ),
            channels != 0 ==> layout is Ok && layout->Ok_0.channel_count() == channels,
    {
        if channels == 0 {
            Err(Error::DeviceHasNoAvailableChannels { device_name, stream: StreamKind::Output })
        } else {
            Ok(OutputLayout { channels })
        }
    }

    pub fn channels(&self) -> (channels: usize)
        ensures
            channels == self.channel_count(),
            channels >= 1,
    {
        proof {
            use_type_invariant(self);
        }
        self.channels
    }

    /// Whether the device takes canonical frames as they are, so that they
    /// can be read straight into its data.
    pub fn is_canonical(&self) -> (canonical: bool)
        ensures
            canonical == (self.channel_count() == 2),
    {
        self.channels == 2
    }

    /// Renders the canonical `buffer` into the device's `data`, folding a
    /// frame into one sample with `mix` where the device has a single
    /// channel.
    pub fn render<T: Copy, F: Fn(T, T) -> T>(&self, buffer: &[T], data: &mut [T], mix: &F)
        requires
            forall|left: T, right: T| call_requires(*mix, (left, right)),
        ensures
            rendered(self.channel_count(), buffer@, old(data)@, final(data)@, *mix),
    {
        proof {
            use_type_invariant(self);
        }
        if self.channels == 1 {
            render_mono(buffer, data, mix);
        } else if self.channels == 2 {
            render_stereo(buffer, data);
            assert(rendered(2, buffer@, old(data)@, data@, *mix));
        } else {
            render_first_two(self.channels, buffer, data);
            assert(rendered(self.channels as nat, buffer@, old(data)@, data@, *mix));
        }
    }
}

fn render_mono<T: Copy, F: Fn(T, T) -> T>(buffer: &[T], data: &mut [T], mix: &F)
    requires
        forall|left: T, right: T| call_requires(*mix, (left, right)),
    ensures
        rendered(1, buffer@, old(data)@, final(data)@, *mix),
{
    let half: usize = buffer.len() / 2;
    let frames: usize = if data.len() < half {
        data.len()
    } else {
        half
    };
    let mut j: usize = 0;
    while j < frames
        invariant
            forall|left: T, right: T| call_requires(*mix, (left, right)),
            j <= frames,
            frames <= buffer@.len() / 2,
            frames <= old(data)@.len(),
            data@.len() == old(data)@.len(),
            buffer@.len() <= usize::MAX,
            forall|i: int|
                0 <= i < j ==> call_ensures(
                    *mix,
                    (buffer@[2 * i], buffer@[2 * i + 1]),
                    #[trigger] data@[i],
                ),
            forall|i: int| j <= i < data@.len() ==> data@[i] == old(data)@[i],
        decreases frames - j,
    {
        data[j] = mix(buffer[2 * j], buffer[2 * j + 1]);
        j += 1;
    }
}

fn render_stereo<T: Copy>(buffer: &[T], data: &mut [T])
    ensures
        final(data)@.len() == old(data)@.len(),
        forall|j: int|
            0 <= j < old(data)@.len() ==> #[trigger] final(data)@[j] == match render_source(
                2,
                buffer@.len(),
                old(data)@.len(),
                j,
            ) {
                Some(k) => buffer@[k],
                None => old(data)@[j],
            },
{
    let samples: usize = if data.len() < buffer.len() {
        data.len()
    } else {
        buffer.len()
    };
    let mut j: usize = 0;
    while j < samples
        invariant
            j <= samples,
            samples <= buffer@.len(),
            samples <= old(data)@.len(),
            data@.len() == old(data)@.len(),
            forall|i: int| 0 <= i < j ==> data@[i] == buffer@[i],
            forall|i: int| j <= i < data@.len() ==> data@[i] == old(data)@[i],
        decreases samples - j,
    {
        data[j] = buffer[j];
        j += 1;
    }
}

/// Whether position `j` of data of `channels` channels holds what rendering
/// puts there.
spec fn holds_rendered<T>(channels: usize, buffer: Seq<T>, before: Seq<T>, data: Seq<T>, j: int)
    -> bool {
    data[j] == match render_source(channels as nat, buffer.len(), before.len(), j) {
        Some(k) => buffer[k],
        None => before[j],
    }
}

fn render_first_two<T: Copy>(channels: usize, buffer: &[T], data: &mut [T])
    requires
        channels > 2,
    ensures
        final(data)@.len() == old(data)@.len(),
        forall|j: int|
            0 <= j < old(data)@.len() ==> #[trigger] final(data)@[j] == match render_source(
                channels as nat,
                buffer@.len(),
                old(data)@.len(),
                j,
            ) {
                Some(k) => buffer@[k],
                None => old(data)@[j],
            },
{
    let half: usize = buffer.len() / 2;
    let device_frames: usize = data.len() / channels;
    let frames: usize = if device_frames < half {
        device_frames
    } else {
        half
    };
    let mut f: usize = 0;
    while f < frames
        invariant
            channels > 2,
            f <= frames,
            frames <= old(data)@.len() / (channels as nat),
            frames <= buffer@.len() / 2,
            data@.len() == old(data)@.len(),
            data@.len() <= usize::MAX,
            buffer@.len() <= usize::MAX,
            forall|j: int|
                0 <= j < channels * f ==> #[trigger] holds_rendered(
                    channels,
                    buffer@,
                    old(data)@,
                    data@,
                    j,
                ),
            forall|j: int| channels * f <= j < data@.len() ==> data@[j] == old(data)@[j],
        decreases frames - f,
    {
        proof {
            lemma_frame_in_bounds(channels as int, data@.len() as int, f as int);
        }
        let start: usize = channels * f;
        let ghost earlier = data@;
        data[start] = buffer[2 * f];
        data[start + 1] = buffer[2 * f + 1];
        assert forall|j: int| 0 <= j < channels * (f + 1) implies #[trigger] holds_rendered(
            channels,
            buffer@,
            old(data)@,
            data@,
            j,
        ) by {
            assert(channels * (f + 1) == start + channels) by (nonlinear_arith)
                requires
                    start == channels * f,
            ;
            if j < start {
                assert(holds_rendered(channels, buffer@, old(data)@, earlier, j));
            } else {
                lemma_position_in_frame(channels as int, f as int, j);
            }
        }
        assert forall|j: int| channels * (f + 1) <= j < data@.len() implies data@[j] == old(
            data,
        )@[j] by {
            assert(channels * (f + 1) == start + channels) by (nonlinear_arith)
                requires
                    start == channels * f,
            ;
        }
        f += 1;
    }
    assert forall|j: int| 0 <= j < old(data)@.len() implies #[trigger] data@[j] == match render_source(
        channels as nat,
        buffer@.len(),
        old(data)@.len(),
        j,
    ) {
        Some(k) => buffer@[k],
        None => old(data)@[j],
    } by {
        if j < channels * f {
            assert(holds_rendered(channels, buffer@, old(data)@, data@, j));
        } else {
            lemma_position_past_frames(channels as int, f as int, j);
        }
    }
}

/// A position inside frame `f` has `f` as its frame and its offset as its
/// channel.
proof fn lemma_position_in_frame(channels: int, f: int, j: int)
    requires
        channels >= 1,
        f >= 0,
        channels * f <= j < channels * f + channels,
    ensures
        j / channels == f,
        j % channels == j - channels * f,
{
    assert(channels * f == f * channels) by (nonlinear_arith);
    vstd::arithmetic::div_mod::lemma_fundamental_div_mod_converse(
        j,
        channels,
        f,
        j - channels * f,
    );
}

/// A position at or past the start of frame `f` lies in frame `f` or a later
/// one.
proof fn lemma_position_past_frames(channels: int, f: int, j: int)
    requires
        channels >= 1,
        f >= 0,
        channels * f <= j,
    ensures
        j / channels >= f,
{
    vstd::arithmetic::div_mod::lemma_div_is_ordered(channels * f, j, channels);
    vstd::arithmetic::div_mod::lemma_div_multiples_vanish(f, channels);
    assert(channels * f == f * channels) by (nonlinear_arith);
}

/// A whole frame of `channels` samples lies inside data of `len` samples
/// when its number is below `len / channels`.
proof fn lemma_frame_in_bounds(channels: int, len: int, f: int)
    requires
        channels >= 1,
        len >= 0,
        0 <= f < len / channels,
    ensures
        0 <= channels * f,
        channels * f + channels <= len,
{
    assert(channels * f + channels == channels * (f + 1)) by (nonlinear_arith);
    assert(channels * (f + 1) <= channels * (len / channels)) by (nonlinear_arith)
        requires
            channels >= 1,
            f + 1 <= len / channels,
    ;
    assert(channels * (len / channels) <= len) by (nonlinear_arith)
        requires
            channels >= 1,
            len >= 0,
    ;
    assert(0 <= channels * f) by (nonlinear_arith)
        requires
            channels >= 1,
            f >= 0,
    ;
}

} // verus!
