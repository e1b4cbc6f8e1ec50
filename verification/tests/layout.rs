use audio_stream::error::{Error, StreamKind};
use audio_stream::layout::{canonical_buffer, InputLayout, OutputLayout};

fn input(channels: usize) -> InputLayout {
    InputLayout::new("test device".to_string(), channels).unwrap()
}

fn output(channels: usize) -> OutputLayout {
    OutputLayout::new("test device".to_string(), channels).unwrap()
}

fn sum(left: f32, right: f32) -> f32 {
    left + right
}

#[test]
fn a_device_without_channels_is_turned_down() {
    assert_eq!(
        InputLayout::new("mic".to_string(), 0).err(),
        Some(Error::DeviceHasNoAvailableChannels {
            device_name: "mic".to_string(),
            stream: StreamKind::Input,
        })
    );
    assert_eq!(
        OutputLayout::new("speaker".to_string(), 0).err(),
        Some(Error::DeviceHasNoAvailableChannels {
            device_name: "speaker".to_string(),
            stream: StreamKind::Output,
        })
    );
}

#[test]
fn a_layout_remembers_its_channels() {
    assert_eq!(input(1).channels(), 1);
    assert_eq!(input(6).channels(), 6);
    assert_eq!(output(2).channels(), 2);
    assert!(output(2).is_canonical());
    assert!(!output(1).is_canonical());
    assert!(!output(3).is_canonical());
}

#[test]
fn a_canonical_buffer_holds_two_samples_per_frame() {
    assert_eq!(canonical_buffer(3, 0.0f32), vec![0.0; 6]);
    assert_eq!(canonical_buffer(0, 1u8), Vec::<u8>::new());
    assert_eq!(canonical_buffer(2, 7i16), vec![7, 7, 7, 7]);
}

#[test]
fn one_channel_is_doubled() {
    let mut buffer = vec![0.0f32; 6];
    input(1).capture(&[0.25, -0.5, 0.75], &mut buffer);
    assert_eq!(buffer, vec![0.25, 0.25, -0.5, -0.5, 0.75, 0.75]);
}

#[test]
fn one_channel_fills_only_as_far_as_the_data_reaches() {
    let mut buffer = vec![9.0f32; 6];
    input(1).capture(&[0.5], &mut buffer);
    assert_eq!(buffer, vec![0.5, 0.5, 9.0, 9.0, 9.0, 9.0]);
}

#[test]
fn one_channel_stops_at_the_end_of_the_buffer() {
    let mut buffer = vec![9.0f32; 5];
    input(1).capture(&[1.0, 2.0, 3.0, 4.0], &mut buffer);
    assert_eq!(buffer, vec![1.0, 1.0, 2.0, 2.0, 9.0]);
}

#[test]
fn two_channels_pass_through() {
    let mut buffer = vec![0.0f32; 4];
    input(2).capture(&[0.1, 0.2, 0.3, 0.4], &mut buffer);
    assert_eq!(buffer, vec![0.1, 0.2, 0.3, 0.4]);
    let mut longer = vec![9.0f32; 6];
    input(2).capture(&[0.1, 0.2, 0.3], &mut longer);
    assert_eq!(longer, vec![0.1, 0.2, 0.3, 9.0, 9.0, 9.0]);
    let mut shorter = vec![9.0f32; 2];
    input(2).capture(&[0.1, 0.2, 0.3], &mut shorter);
    assert_eq!(shorter, vec![0.1, 0.2]);
}

#[test]
fn of_more_channels_the_first_two_are_kept() {
    let mut buffer = vec![0i32; 6];
    input(4).capture(&[10, 11, 12, 13, 20, 21, 22, 23, 30, 31, 32, 33], &mut buffer);
    assert_eq!(buffer, vec![10, 11, 20, 21, 30, 31]);
}

#[test]
fn an_incomplete_frame_is_not_captured() {
    let mut buffer = vec![0i32; 6];
    input(3).capture(&[10, 11, 12, 20, 21], &mut buffer);
    assert_eq!(buffer, vec![10, 11, 0, 0, 0, 0]);
}

#[test]
fn one_channel_gets_the_sum_of_both() {
    let mut data = vec![0.0f32; 3];
    output(1).render(&[0.25, 0.5, -0.5, 0.5, 1.0, 2.0], &mut data, &sum);
    assert_eq!(data, vec![0.75, 0.0, 3.0]);
}

#[test]
fn one_channel_is_written_only_as_far_as_the_buffer_reaches() {
    let mut data = vec![9.0f32; 4];
    output(1).render(&[0.25, 0.5, 1.0, 2.0, 4.0], &mut data, &sum);
    assert_eq!(data, vec![0.75, 3.0, 9.0, 9.0]);
}

#[test]
fn two_channels_are_copied() {
    let mut data = vec![9.0f32; 5];
    output(2).render(&[1.0, 2.0, 3.0, 4.0], &mut data, &sum);
    assert_eq!(data, vec![1.0, 2.0, 3.0, 4.0, 9.0]);
}

#[test]
fn of_more_channels_the_first_two_are_written_and_the_rest_left_alone() {
    let mut data = vec![0.0f32; 8];
    output(4).render(&[1.0, 2.0, 3.0, 4.0], &mut data, &sum);
    assert_eq!(data, vec![1.0, 2.0, 0.0, 0.0, 3.0, 4.0, 0.0, 0.0]);
    let mut marked = vec![9i8; 7];
    output(3).render(&[1, 2, 3, 4, 5, 6], &mut marked, &|left: i8, _right: i8| left);
    assert_eq!(marked, vec![1, 2, 9, 3, 4, 9, 9]);
}

#[test]
fn what_went_in_comes_out_on_a_device_of_the_same_layout() {
    let device_in: Vec<i32> = (0..12).collect();
    let mut canonical = vec![0i32; 8];
    input(3).capture(&device_in, &mut canonical);
    let mut device_out = vec![-1i32; 12];
    output(3).render(&canonical, &mut device_out, &|left: i32, _right: i32| left);
    assert_eq!(device_out, vec![0, 1, -1, 3, 4, -1, 6, 7, -1, 9, 10, -1]);
}

#[test]
fn silence_renders_to_silence() {
    let silence = vec![0.0f32; 8];
    let mut stereo = vec![0.7f32; 8];
    output(2).render(&silence, &mut stereo, &sum);
    assert_eq!(stereo, vec![0.0; 8]);
    let mut mono = vec![0.7f32; 6];
    output(1).render(&silence, &mut mono, &sum);
    assert_eq!(mono, vec![0.0, 0.0, 0.0, 0.0, 0.7, 0.7]);
    let mut wide = vec![0.7f32; 6];
    output(3).render(&silence, &mut wide, &sum);
    assert_eq!(wide, vec![0.0, 0.0, 0.7, 0.0, 0.0, 0.7]);
}
