use interflow::duplex::samplerate_link;
use interflow::duplex::DuplexCallbackError;

#[test]
fn samplerate_is_sent_once_per_change() {
    let (mut sender, mut receiver) = samplerate_link();
    assert_eq!(0, sender.current());
    assert!(sender.update(48000));
    assert_eq!(48000, sender.current());
    assert!(!sender.update(48000));
    // The channel holds one value: a change is not sent until the input side took the last.
    assert!(!sender.update(44100));
    assert_eq!(48000, sender.current());
    assert_eq!(Ok(48000), receiver.pop());
    assert!(sender.update(44100));
    assert_eq!(44100, sender.current());
    assert_eq!(Ok(44100), receiver.pop());
    assert!(receiver.pop().is_err());
}

#[test]
fn zero_rate_is_not_sent_initially() {
    let (mut sender, mut receiver) = samplerate_link();
    assert!(!sender.update(0));
    assert!(receiver.pop().is_err());
}

#[test]
fn error_variants() {
    let e: DuplexCallbackError<u8, u16> = DuplexCallbackError::InputError(3);
    assert!(matches!(e, DuplexCallbackError::InputError(3)));
    let o: DuplexCallbackError<u8, u16> = DuplexCallbackError::OutputError(4);
    assert!(matches!(o, DuplexCallbackError::OutputError(4)));
    let n: DuplexCallbackError<u8, u16> = DuplexCallbackError::NoInputChannels;
    assert!(matches!(n, DuplexCallbackError::NoInputChannels));
}

#[test]
fn recorded_push_outcomes() {
    let (mut sender, receiver) = samplerate_link();
    assert!(!sender.record_push(48000, false));
    assert_eq!(0, sender.current());
    assert!(sender.record_push(48000, true));
    assert_eq!(48000, sender.current());
    assert_eq!(1, receiver.buffer().capacity());
}

#[test]
fn new_sender_holds_given_channel() {
    let (producer, mut consumer) = rtrb::RingBuffer::<u32>::new(1);
    let mut sender = interflow::duplex::SamplerateSender::new(producer);
    assert_eq!(0, sender.current());
    assert!(sender.update(96000));
    assert_eq!(Ok(96000), consumer.pop());
}

#[test]
fn changed_rate_is_what_is_written() {
    let (mut sender, mut receiver) = samplerate_link();
    assert!(sender.update(22050));
    assert_eq!(Ok(22050), receiver.pop());
    assert!(sender.update(88200));
    assert_eq!(Ok(88200), receiver.pop());
}
