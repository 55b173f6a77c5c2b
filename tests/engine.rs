use jumpstarter::config::ConfigRecord;
use jumpstarter::engine::{ControlClass, InReply, OutReply, PinState, PowerCommand, StorageCommand};
use jumpstarter::protocol::{Recipient, RequestKind, SetPin, SetupPacket};
use jumpstarter::telemetry::Reading;

const IFACE: u8 = 2;

fn setup(request: u8, value: u16) -> SetupPacket {
    SetupPacket {
        kind: RequestKind::Vendor,
        recipient: Recipient::Interface,
        request,
        value,
        index: IFACE as u16,
    }
}

fn engine() -> ControlClass {
    ControlClass::new(IFACE, b"v1.2.3".to_vec())
}

fn data_of(r: InReply) -> Vec<u8> {
    match r {
        InReply::Data(d) => d,
        other => panic!("expected data, got {:?}", other),
    }
}

fn readings(power: i32, voltage: i32, current: i32) -> (Reading, Reading, Reading) {
    (
        Reading { hundredths: power },
        Reading { hundredths: voltage },
        Reading { hundredths: current },
    )
}

#[test]
fn config_name_round_trip() {
    let mut e = engine();
    assert_eq!(e.control_out(&setup(3, 0), b"dut1"), OutReply::Accepted);
    let stored = ConfigRecord::new();
    let d = e.handle(&stored);
    let written = d.config.expect("a record to persist");
    assert_eq!(written.name, b"dut1".to_vec());
    let (p, v, c) = readings(0, 0, 0);
    e.feed(&written, p, v, c);
    assert_eq!(data_of(e.control_in(&setup(3, 0))), b"dut1".to_vec());
}

#[test]
fn config_write_keeps_other_fields() {
    let mut e = engine();
    let mut stored = ConfigRecord::new();
    stored.name = b"old".to_vec();
    stored.tags = b"lab".to_vec();
    assert_eq!(e.control_out(&setup(3, 2), b"{\"a\":1}"), OutReply::Accepted);
    let written = e.handle(&stored).config.unwrap();
    assert_eq!(written.name, b"old".to_vec());
    assert_eq!(written.tags, b"lab".to_vec());
    assert_eq!(written.json, b"{\"a\":1}".to_vec());
}

#[test]
fn config_payload_of_256_bytes_accepted() {
    let mut e = engine();
    let payload = vec![7u8; 256];
    assert_eq!(e.control_out(&setup(3, 1), &payload), OutReply::Accepted);
    let written = e.handle(&ConfigRecord::new()).config.unwrap();
    assert_eq!(written.tags, payload);
}

#[test]
fn config_payload_over_256_bytes_rejected() {
    let mut e = engine();
    let payload = vec![7u8; 257];
    assert_eq!(e.control_out(&setup(3, 1), &payload), OutReply::Rejected);
    assert!(e.handle(&ConfigRecord::new()).config.is_none());
}

#[test]
fn config_unknown_key_rejected() {
    let mut e = engine();
    assert_eq!(e.control_out(&setup(3, 7), b"x"), OutReply::Rejected);
    assert!(matches!(e.control_in(&setup(3, 7)), InReply::Rejected));
}

#[test]
fn power_on_plays_configured_sequence() {
    let mut e = engine();
    let mut cfg = ConfigRecord::new();
    // A=High, Reset=Low
    cfg.power_on = vec![1, 1, 0, 0];
    let (p, v, c) = readings(0, 0, 0);
    e.feed(&cfg, p, v, c);
    assert_eq!(e.control_out(&setup(1, 2), &[]), OutReply::Accepted);
    let d = e.handle(&cfg);
    match d.power {
        Some(PowerCommand::On(seq)) => assert_eq!(seq, vec![1, 1, 0, 0]),
        other => panic!("unexpected {:?}", other),
    }
    assert!(d.storage.is_none());
    assert!(d.pin.is_none());
    assert!(d.config.is_none());
}

#[test]
fn power_actions_map_to_sequences() {
    let mut cfg = ConfigRecord::new();
    cfg.power_on = vec![1];
    cfg.power_off = vec![2];
    cfg.power_rescue = vec![3];
    let (p, v, c) = readings(0, 0, 0);
    let cases: Vec<(u16, Option<(bool, Vec<u8>)>)> = vec![
        (0, None),
        (1, Some((false, vec![2]))),
        (2, Some((true, vec![1]))),
        (3, Some((false, vec![]))),
        (4, Some((true, vec![]))),
        (5, Some((true, vec![3]))),
    ];
    for (value, expected) in cases {
        let mut e = engine();
        e.feed(&cfg, p, v, c);
        assert_eq!(e.control_out(&setup(1, value), &[]), OutReply::Accepted);
        let got = match e.handle(&cfg).power {
            Some(PowerCommand::On(s)) => Some((true, s)),
            Some(PowerCommand::Off(s)) => Some((false, s)),
            None => None,
        };
        assert_eq!(got, expected, "power action {}", value);
    }
}

#[test]
fn power_out_of_range_rejected() {
    let mut e = engine();
    assert_eq!(e.control_out(&setup(1, 6), &[]), OutReply::Rejected);
    assert!(e.handle(&ConfigRecord::new()).power.is_none());
}

#[test]
fn second_power_write_overwrites_first() {
    let mut e = engine();
    let mut cfg = ConfigRecord::new();
    cfg.power_off = vec![9];
    let (p, v, c) = readings(0, 0, 0);
    e.feed(&cfg, p, v, c);
    assert_eq!(e.control_out(&setup(1, 2), &[]), OutReply::Accepted);
    assert_eq!(e.control_out(&setup(1, 1), &[]), OutReply::Accepted);
    match e.handle(&cfg).power {
        Some(PowerCommand::Off(s)) => assert_eq!(s, vec![9]),
        other => panic!("unexpected {:?}", other),
    }
    assert!(e.handle(&cfg).power.is_none());
}

#[test]
fn storage_dut_connects_once() {
    let mut e = engine();
    assert_eq!(e.control_out(&setup(2, 3), &[]), OutReply::Accepted);
    let d = e.handle(&ConfigRecord::new());
    assert_eq!(d.storage, Some(StorageCommand::ConnectToDut));
    assert!(d.power.is_none());
    assert_eq!(e.handle(&ConfigRecord::new()).storage, None);
}

#[test]
fn storage_actions_map_to_calls() {
    let expected = [
        None,
        Some(StorageCommand::PowerOff),
        Some(StorageCommand::ConnectToHost),
        Some(StorageCommand::ConnectToDut),
    ];
    for (value, want) in expected.iter().enumerate() {
        let mut e = engine();
        assert_eq!(e.control_out(&setup(2, value as u16), &[]), OutReply::Accepted);
        assert_eq!(e.handle(&ConfigRecord::new()).storage, *want);
    }
    let mut e = engine();
    assert_eq!(e.control_out(&setup(2, 4), &[]), OutReply::Rejected);
}

#[test]
fn pin_set_stages_level() {
    let mut e = engine();
    assert_eq!(e.control_out(&setup(5, 1), &[1]), OutReply::Accepted);
    assert_eq!(e.handle(&ConfigRecord::new()).pin, Some((SetPin::A, PinState::High)));
    assert_eq!(e.control_out(&setup(5, 0), &[2, 9]), OutReply::Accepted);
    assert_eq!(e.handle(&ConfigRecord::new()).pin, Some((SetPin::Reset, PinState::Floating)));
    assert_eq!(e.control_out(&setup(5, 4), &[0]), OutReply::Accepted);
    assert_eq!(e.handle(&ConfigRecord::new()).pin, Some((SetPin::D, PinState::Low)));
}

#[test]
fn pin_set_bad_level_rejected() {
    let mut e = engine();
    assert_eq!(e.control_out(&setup(5, 2), &[0]), OutReply::Accepted);
    assert_eq!(e.control_out(&setup(5, 3), &[3]), OutReply::Rejected);
    assert_eq!(e.handle(&ConfigRecord::new()).pin, Some((SetPin::B, PinState::Low)));
}

#[test]
fn pin_set_without_data_or_bad_pin_rejected() {
    let mut e = engine();
    assert_eq!(e.control_out(&setup(5, 1), &[]), OutReply::Rejected);
    assert_eq!(e.control_out(&setup(5, 5), &[1]), OutReply::Rejected);
    assert_eq!(e.handle(&ConfigRecord::new()).pin, None);
}

#[test]
fn nop_accepted_and_unknown_requests_rejected() {
    let mut e = engine();
    assert_eq!(e.control_out(&setup(0, 0), &[]), OutReply::Accepted);
    assert_eq!(e.control_out(&setup(4, 0), &[]), OutReply::Rejected);
    assert_eq!(e.control_out(&setup(6, 0), &[]), OutReply::Rejected);
    assert!(matches!(e.control_in(&setup(0, 0)), InReply::Rejected));
    assert!(matches!(e.control_in(&setup(1, 0)), InReply::Rejected));
    assert!(matches!(e.control_in(&setup(200, 0)), InReply::Rejected));
}

#[test]
fn foreign_transfers_ignored() {
    let mut e = engine();
    let mut wrong_index = setup(1, 2);
    wrong_index.index = IFACE as u16 + 1;
    let mut wrong_recipient = setup(1, 2);
    wrong_recipient.recipient = Recipient::Device;
    let mut wrong_kind = setup(1, 2);
    wrong_kind.kind = RequestKind::Class;
    let mut wide_index = setup(1, 2);
    wide_index.index = 256 + IFACE as u16;
    for s in [wrong_index, wrong_recipient, wrong_kind, wide_index] {
        assert_eq!(e.control_out(&s, &[]), OutReply::Ignored);
        assert!(matches!(e.control_in(&s), InReply::Ignored));
    }
    let d = e.handle(&ConfigRecord::new());
    assert!(d.power.is_none() && d.storage.is_none() && d.pin.is_none() && d.config.is_none());
    assert_eq!(e.interface(), IFACE);
}

#[test]
fn read_version() {
    let e = engine();
    assert_eq!(data_of(e.control_in(&setup(4, 0))), b"v1.2.3".to_vec());
    assert!(matches!(e.control_in(&setup(4, 4)), InReply::Rejected));
}

#[test]
fn read_telemetry_formats_two_decimals() {
    let mut e = engine();
    let (p, v, c) = readings(1234, 500, -7);
    e.feed(&ConfigRecord::new(), p, v, c);
    assert_eq!(data_of(e.control_in(&setup(4, 1))), b"12.34W".to_vec());
    assert_eq!(data_of(e.control_in(&setup(4, 2))), b"5.00V".to_vec());
    assert_eq!(data_of(e.control_in(&setup(4, 3))), b"-0.07A".to_vec());
}

#[test]
fn read_telemetry_matches_shape() {
    for h in [0, 1, -1, 99, -100, 123456, i32::MAX, i32::MIN] {
        let mut e = engine();
        let (p, v, c) = readings(h, h, h);
        e.feed(&ConfigRecord::new(), p, v, c);
        for (value, unit) in [(1u16, b'W'), (2, b'V'), (3, b'A')] {
            let t = data_of(e.control_in(&setup(4, value)));
            let n = t.len();
            assert!(n >= 5 && n <= 128);
            assert_eq!(t[n - 1], unit);
            assert!(t[n - 2].is_ascii_digit() && t[n - 3].is_ascii_digit());
            assert_eq!(t[n - 4], b'.');
            let head = if t[0] == b'-' { &t[1..n - 4] } else { &t[..n - 4] };
            assert!(!head.is_empty() && head.iter().all(|b| b.is_ascii_digit()));
        }
    }
}

#[test]
fn read_extremes() {
    let mut e = engine();
    let (p, v, c) = readings(i32::MIN, i32::MAX, 100);
    e.feed(&ConfigRecord::new(), p, v, c);
    assert_eq!(data_of(e.control_in(&setup(4, 1))), b"-21474836.48W".to_vec());
    assert_eq!(data_of(e.control_in(&setup(4, 2))), b"21474836.47V".to_vec());
    assert_eq!(data_of(e.control_in(&setup(4, 3))), b"1.00A".to_vec());
}

#[test]
fn config_read_serves_cached_fields() {
    let mut e = engine();
    let mut cfg = ConfigRecord::new();
    cfg.name = b"n".to_vec();
    cfg.tags = b"t".to_vec();
    cfg.json = b"j".to_vec();
    cfg.usb_console = vec![1];
    cfg.power_on = vec![2];
    cfg.power_off = vec![3];
    cfg.power_rescue = vec![4];
    let (p, v, c) = readings(0, 0, 0);
    e.feed(&cfg, p, v, c);
    let want: [&[u8]; 7] = [b"n", b"t", b"j", &[1], &[2], &[3], &[4]];
    for (key, w) in want.iter().enumerate() {
        assert_eq!(data_of(e.control_in(&setup(3, key as u16))), w.to_vec());
    }
}

#[test]
fn cache_is_stale_until_fed() {
    let mut e = engine();
    assert_eq!(e.control_out(&setup(3, 0), b"dut1"), OutReply::Accepted);
    let written = e.handle(&ConfigRecord::new()).config.unwrap();
    assert_eq!(data_of(e.control_in(&setup(3, 0))), Vec::<u8>::new());
    let (p, v, c) = readings(0, 0, 0);
    e.feed(&written, p, v, c);
    assert_eq!(data_of(e.control_in(&setup(3, 0))), b"dut1".to_vec());
}
