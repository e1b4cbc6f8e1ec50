use audio_stream::channel::{
    control_channel, taken_out, went_in, FromProcessorReceiver, FromProcessorSender,
    MessageChannel, ReceiveFailure, SendFailure, ToProcessorReceiver, ToProcessorSender,
};
use audio_stream::message::{PopMessage, PushMessage, ToProcessor};

#[test]
fn messages_come_out_in_the_order_they_went_in() {
    let mut channel = MessageChannel::bounded(4);
    assert!(channel.push(ToProcessor::BeginEdit(3)));
    assert!(channel.push(ToProcessor::SetParameter(3, 0x3f00_0000)));
    assert!(channel.push(ToProcessor::EndEdit(3)));
    assert_eq!(channel.pop(), Some(ToProcessor::BeginEdit(3)));
    assert_eq!(channel.pop(), Some(ToProcessor::SetParameter(3, 0x3f00_0000)));
    assert_eq!(channel.pop(), Some(ToProcessor::EndEdit(3)));
    assert_eq!(channel.pop(), None);
    assert_eq!(channel.pop(), None);
}

#[test]
fn a_full_channel_turns_a_message_down_and_keeps_the_rest() {
    let mut channel = MessageChannel::bounded(2);
    assert!(channel.push(ToProcessor::SetParameter(0, 1)));
    assert!(channel.push(ToProcessor::SetParameter(1, 2)));
    assert!(!channel.push(ToProcessor::SetParameter(2, 3)));
    assert!(!channel.push(ToProcessor::SetParameter(3, 4)));
    assert_eq!(channel.pop(), Some(ToProcessor::SetParameter(0, 1)));
    assert!(channel.push(ToProcessor::SetParameter(4, 5)));
    assert_eq!(channel.pop(), Some(ToProcessor::SetParameter(1, 2)));
    assert_eq!(channel.pop(), Some(ToProcessor::SetParameter(4, 5)));
    assert_eq!(channel.pop(), None);
}

#[test]
fn a_channel_without_capacity_takes_nothing() {
    let mut channel = MessageChannel::bounded(0);
    assert!(!channel.push(ToProcessor::BeginEdit(0)));
    assert_eq!(channel.pop(), None);
}

#[test]
fn push_all_counts_what_fits_and_drain_returns_it() {
    let mut channel = MessageChannel::bounded(3);
    let messages = vec![
        ToProcessor::BeginEdit(1),
        ToProcessor::SetParameter(1, 7),
        ToProcessor::SetParameter(1, 8),
        ToProcessor::SetParameter(1, 9),
        ToProcessor::EndEdit(1),
    ];
    assert_eq!(channel.push_all(&messages), 3);
    assert_eq!(channel.drain(), messages[..3].to_vec());
    assert_eq!(channel.drain(), Vec::new());
    assert_eq!(channel.push_all(&messages[3..]), 2);
    assert_eq!(channel.drain(), messages[3..].to_vec());
}

#[test]
fn the_recommended_capacity_holds_a_burst_of_edits() {
    let mut channel = MessageChannel::bounded(audio_stream::CHANNEL_CAPACITY);
    for id in 0..1024 {
        assert!(channel.push(ToProcessor::SetParameter(id, id as u32)));
    }
    assert!(!channel.push(ToProcessor::SetParameter(1024, 0)));
    for id in 0..1024 {
        assert_eq!(channel.pop(), Some(ToProcessor::SetParameter(id, id as u32)));
    }
    assert_eq!(channel.pop(), None);
}

#[test]
fn split_ends_share_the_channel() {
    let (sender, receiver): (ToProcessorSender, ToProcessorReceiver) =
        MessageChannel::bounded(2).split();
    let other = sender.clone();
    assert!(sender.same_channel(&other));
    assert!(sender.push(ToProcessor::BeginEdit(5)));
    assert!(other.push(ToProcessor::EndEdit(5)));
    assert!(!sender.push(ToProcessor::BeginEdit(6)));
    let listener = receiver.clone();
    assert_eq!(receiver.pop(), Some(ToProcessor::BeginEdit(5)));
    assert_eq!(listener.pop(), Some(ToProcessor::EndEdit(5)));
    assert_eq!(receiver.pop(), None);
}

#[test]
fn handles_of_different_channels_differ() {
    let (first, _first_receiver) = MessageChannel::bounded(1).split();
    let (second, _second_receiver) = MessageChannel::bounded(1).split();
    assert!(!first.same_channel(&second));
}

#[test]
fn a_message_went_in_unless_the_attempt_failed() {
    assert!(went_in::<u8>(&Ok(())));
    assert!(!went_in(&Err(SendFailure::Full(7u8))));
    assert!(!went_in(&Err(SendFailure::Disconnected(7u8))));
}

#[test]
fn a_message_is_handed_on_if_one_was_taken_out() {
    assert_eq!(taken_out(Ok(7u8)), Some(7));
    assert_eq!(taken_out::<u8>(Err(ReceiveFailure::Empty)), None);
    assert_eq!(taken_out::<u8>(Err(ReceiveFailure::Disconnected)), None);
}

#[test]
fn a_push_without_a_receiver_is_turned_down() {
    let (sender, receiver) = MessageChannel::bounded(2).split();
    drop(receiver);
    assert!(!sender.push(ToProcessor::BeginEdit(1)));
}

#[test]
fn a_pop_without_a_sender_hands_out_what_waits_and_then_nothing() {
    let (sender, receiver) = MessageChannel::bounded(2).split();
    assert!(sender.push(ToProcessor::BeginEdit(1)));
    drop(sender);
    assert_eq!(receiver.pop(), Some(ToProcessor::BeginEdit(1)));
    assert_eq!(receiver.pop(), None);
}

#[test]
fn what_waits_stays_in_the_channel_when_its_ends_are_parted() {
    let mut channel = MessageChannel::bounded(3);
    assert!(channel.push(ToProcessor::BeginEdit(1)));
    assert!(channel.push(ToProcessor::EndEdit(1)));
    let (sender, receiver) = channel.split();
    assert!(sender.push(ToProcessor::BeginEdit(2)));
    assert!(!sender.push(ToProcessor::EndEdit(2)));
    assert_eq!(receiver.pop(), Some(ToProcessor::BeginEdit(1)));
    assert_eq!(receiver.pop(), Some(ToProcessor::EndEdit(1)));
    assert_eq!(receiver.pop(), Some(ToProcessor::BeginEdit(2)));
    assert_eq!(receiver.pop(), None);
}

#[test]
fn the_control_channel_is_empty_and_has_1024_places() {
    let (sender, receiver) = control_channel();
    assert_eq!(receiver.pop(), None);
    for id in 0..1024 {
        assert!(sender.push(ToProcessor::EndEdit(id)));
    }
    assert!(!sender.push(ToProcessor::EndEdit(1024)));
    assert_eq!(receiver.pop(), Some(ToProcessor::EndEdit(0)));
}

#[test]
fn handles_made_from_ends_use_those_ends() {
    let (raw_sender, raw_receiver) = crossbeam_channel::bounded::<u8>(1);
    let sender = FromProcessorSender::new(raw_sender.clone());
    let receiver = FromProcessorReceiver::new(raw_receiver.clone());
    assert!(sender.push(9));
    assert_eq!(raw_receiver.try_recv(), Ok(9));
    assert!(raw_sender.try_send(8).is_ok());
    assert!(!sender.push(7));
    assert_eq!(receiver.pop(), Some(8));
    let (raw_sender, raw_receiver) = crossbeam_channel::bounded(1);
    let sender = ToProcessorSender::new(raw_sender.clone());
    let receiver = ToProcessorReceiver::new(raw_receiver);
    assert!(sender.same_channel(&ToProcessorSender::new(raw_sender)));
    assert!(sender.push(ToProcessor::BeginEdit(4)));
    assert_eq!(receiver.pop(), Some(ToProcessor::BeginEdit(4)));
}

#[test]
fn a_handle_and_its_copy_are_equal() {
    let (sender, receiver) = control_channel();
    let copy = sender.clone();
    assert!(sender == copy);
    assert!(sender.same_channel(&copy));
    let second = receiver.clone();
    assert!(receiver.same_channel(&second));
    let (other_sender, other_receiver) = control_channel();
    assert!(sender != other_sender);
    assert!(!receiver.same_channel(&other_receiver));
    assert!(other_sender == other_sender.clone());
}

#[test]
fn a_handle_and_its_copy_feed_one_channel() {
    let (sender, receiver) = MessageChannel::bounded(2).split();
    let copy = sender.clone();
    let second = receiver.clone();
    assert!(sender.push(ToProcessor::BeginEdit(1)));
    assert!(copy.push(ToProcessor::EndEdit(1)));
    assert!(!sender.push(ToProcessor::BeginEdit(2)));
    assert!(!copy.push(ToProcessor::BeginEdit(2)));
    assert_eq!(second.pop(), Some(ToProcessor::BeginEdit(1)));
    assert_eq!(receiver.pop(), Some(ToProcessor::EndEdit(1)));
    assert_eq!(second.pop(), None);
}
