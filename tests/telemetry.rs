use jumpstarter::protocol::{ConfigKey, ControlRequest, PowerAction, ReadKey, SetPin, SetPinState, StorageAction};
use jumpstarter::telemetry::{format_reading, RawSamples, Reading, SampleBuffers, UNIT_VOLT};

#[test]
fn buffers_alternate_between_capture_and_consumer() {
    let mut b = SampleBuffers::new();
    b.capture([10, 20]);
    assert_eq!(b.next_transfer(), RawSamples { current_raw: 10, vout_raw: 20 });
    b.capture([30, 40]);
    let filled = b.complete();
    assert_eq!(filled, 1);
    assert_eq!(b.release(filled), RawSamples { current_raw: 30, vout_raw: 40 });
    b.capture([50, 60]);
    let filled = b.complete();
    assert_eq!(filled, 0);
    assert_eq!(b.release(filled), RawSamples { current_raw: 50, vout_raw: 60 });
}

#[test]
fn fresh_buffers_read_zero() {
    let mut b = SampleBuffers::new();
    assert_eq!(b.next_transfer(), RawSamples { current_raw: 0, vout_raw: 0 });
}

#[test]
fn reading_format() {
    assert_eq!(format_reading(Reading { hundredths: 0 }, UNIT_VOLT), b"0.00V".to_vec());
    assert_eq!(format_reading(Reading { hundredths: 1205 }, UNIT_VOLT), b"12.05V".to_vec());
    assert_eq!(format_reading(Reading { hundredths: -1205 }, UNIT_VOLT), b"-12.05V".to_vec());
    assert_eq!(format_reading(Reading { hundredths: 10 }, b'W'), b"0.10W".to_vec());
}

#[test]
fn decoders() {
    assert_eq!(ControlRequest::from_code(5), Some(ControlRequest::PinSet));
    assert_eq!(ControlRequest::from_code(6), None);
    assert_eq!(PowerAction::from_value(5), Some(PowerAction::Rescue));
    assert_eq!(PowerAction::from_value(6), None);
    assert_eq!(StorageAction::from_value(3), Some(StorageAction::DUT));
    assert_eq!(StorageAction::from_value(4), None);
    assert_eq!(ConfigKey::from_value(6), Some(ConfigKey::PowerRescue));
    assert_eq!(ConfigKey::from_value(7), None);
    assert_eq!(ReadKey::from_value(3), Some(ReadKey::Current));
    assert_eq!(ReadKey::from_value(4), None);
    assert_eq!(SetPin::from_value(4), Some(SetPin::D));
    assert_eq!(SetPin::from_value(5), None);
    assert_eq!(SetPinState::from_byte(2), Some(SetPinState::Floating));
    assert_eq!(SetPinState::from_byte(3), None);
}
