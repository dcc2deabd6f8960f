use rfe::common::MessageParseError;
use rfe::spectrum_analyzer::container::{Expectation, MessageContainer, MessageKind, Notice};
use rfe::spectrum_analyzer::reader::{frame, Framing, Reader, MAX_BUFFER};
use rfe::spectrum_analyzer::rf_explorer::{
    attempts, is_rf_explorer_port, next_attempt, Attempt,
};
use rfe::spectrum_analyzer::sweep::{SweepDataExt, SweepDataLarge, SweepDataStandard};
use rfe::spectrum_analyzer::{
    Config, DspMode, InputStage, Message, RfExplorer, Sweep, TrackingStatus,
};

fn messages(bytes: &[u8]) -> (Vec<Message>, usize) {
    let mut reader = Reader::new();
    reader.push(bytes);
    let mut found = Vec::new();
    while let Some(message) = reader.next_message_at(5) {
        found.push(message);
    }
    (found, reader.len())
}

#[test]
fn reader_finds_the_frames_of_a_stream() {
    let (found, left) = messages(
        b"#C2-F:0050000,0100000,+035,-120\r\nDSP:0\r\n$S\x03\x01\x02\x03\r\n#K1\r\n#a2\r\n",
    );
    assert_eq!(
        found,
        vec![
            Message::Config(Config::try_from(b"#C2-F:0050000,0100000,+035,-120".as_ref()).unwrap()),
            Message::DspMode(DspMode::Auto),
            Message::Sweep(Sweep::Standard(SweepDataStandard::new(vec![-1, -2, -3], 5))),
            Message::TrackingStatus(TrackingStatus::Enabled),
            Message::InputStage(InputStage::Lna25dB),
        ]
    );
    assert_eq!(left, 0);
}

#[test]
fn reader_waits_for_the_end_of_a_line() {
    let mut reader = Reader::new();
    reader.push(b"#C2-M:006,004,01.1");
    assert_eq!(reader.next_message_at(0), None);
    assert_eq!(reader.len(), 18);
    reader.push(b"2B20\r");
    match reader.next_message_at(0) {
        Some(Message::SetupInfo(info)) => assert_eq!(info.firmware_version, "01.12B20"),
        other => panic!("{:?}", other),
    }
    assert_eq!(reader.len(), 0);
    // The line feed that arrives late starts no frame and is dropped.
    reader.push(b"\nDSP:3\r\n");
    assert_eq!(reader.next_message_at(0), Some(Message::DspMode(DspMode::NoImg)));
    assert_eq!(reader.len(), 0);
}

#[test]
fn reader_waits_for_the_end_of_a_sweep() {
    let mut reader = Reader::new();
    reader.push(&[b'$', b'S', 4, 1, 2]);
    assert_eq!(reader.next_message_at(0), None);
    assert_eq!(reader.len(), 5);
    reader.push(&[3, 4]);
    assert_eq!(
        reader.next_message_at(1),
        Some(Message::Sweep(Sweep::Standard(SweepDataStandard::new(
            vec![-1, -2, -3, -4],
            1
        ))))
    );
    assert_eq!(reader.len(), 0);
}

#[test]
fn reader_keeps_sweeps_apart_that_come_back_to_back() {
    let (found, left) = messages(&[
        b'$', b'S', 2, 13, 10, b'$', b's', 0, 1, 2, 3, 4, 5, 6, 7, 8, 9, 10, 11, 12, 13, 14, 15,
        16, b'\r', b'\n', b'$', b'z', 0, 1, 99,
    ]);
    assert_eq!(
        found,
        vec![
            Message::Sweep(Sweep::Standard(SweepDataStandard::new(vec![-13, -10], 5))),
            Message::Sweep(Sweep::Ext(SweepDataExt::new(
                (1..=16).map(|b| -b).collect(),
                5
            ))),
            Message::Sweep(Sweep::Large(SweepDataLarge::new(vec![-99], 5))),
        ]
    );
    assert_eq!(left, 0);
}

#[test]
fn reader_drops_what_starts_no_frame() {
    let (found, left) = messages(b"\x00\xffgarbage#C2-X:1\r\nDSP:9\r\nDSP:1\r\n#");
    assert_eq!(found, vec![Message::DspMode(DspMode::Filter)]);
    // What may still become a frame waits.
    assert_eq!(left, 1);
}

#[test]
fn reader_restarts_behind_the_escape_of_a_sweep_that_was_cut_short() {
    let mut stream = vec![b'$', b'S', 112, 1, 2, 3, 255, 254, 255, 254, 0];
    stream.extend(b"DSP:2\r\n");
    let (found, left) = messages(&stream);
    assert_eq!(found, vec![Message::DspMode(DspMode::Fast)]);
    assert_eq!(left, 0);
}

#[test]
fn reader_restarts_at_the_frame_inside_a_sweep_that_was_cut_short() {
    let stream = [
        36, 83, 112, 215, 210, 214, 212, 212, 216, 212, 210, 214, 213, 212, 215, 212, 212, 212,
        212, 220, 211, 215, 212, 212, 217, 213, 208, 214, 216, 210, 210, 213, 215, 216, 213,
        213, 217, 209, 216, 214, 217, 206, 210, 13, 10, 35, 67, 50, 45, 77, 58, 48, 48, 54, 44,
        48, 48, 52, 44, 48, 49, 46, 49, 50, 66, 50, 48, 13, 10,
    ];
    let (found, left) = messages(&stream);
    assert_eq!(found.len(), 1);
    match &found[0] {
        Message::SetupInfo(info) => assert_eq!(info.firmware_version, "01.12B20"),
        other => panic!("{:?}", other),
    }
    assert_eq!(left, 0);
}

#[test]
fn frame_tells_what_stands_at_the_head() {
    assert_eq!(frame(b""), Framing::NeedMore);
    assert_eq!(frame(b"#"), Framing::NeedMore);
    assert_eq!(frame(b"#C2-"), Framing::NeedMore);
    assert_eq!(frame(b"DS"), Framing::NeedMore);
    assert_eq!(frame(b"$"), Framing::NeedMore);
    assert_eq!(frame(b"X"), Framing::Skip);
    assert_eq!(frame(b"#C2-X"), Framing::Skip);
    assert_eq!(frame(b"\r\n"), Framing::Skip);
    assert_eq!(frame(b"DSP:1"), Framing::NeedMore);
    assert_eq!(frame(b"DSP:1\r"), Framing::Candidate(6));
    assert_eq!(frame(b"DSP:1\r\nDSP:2\r\n"), Framing::Candidate(7));
    assert_eq!(frame(b"DSP:1\rDSP:2\r\n"), Framing::Candidate(6));
    assert_eq!(frame(b"$S"), Framing::Candidate(2));
    assert_eq!(frame(b"$S\x02\x01"), Framing::Candidate(4));
    assert_eq!(frame(b"$S\x02\x01\x02"), Framing::Candidate(5));
    assert_eq!(frame(b"$S\x02\x01\x02\r"), Framing::Candidate(6));
    assert_eq!(frame(b"$S\x02\x01\x02\r\n$S"), Framing::Candidate(7));
    assert_eq!(frame(b"$S\x02\x01\x02$S"), Framing::Candidate(5));
    assert_eq!(frame(b"$s\x00\x01\x02"), Framing::Candidate(5));
    assert_eq!(frame(b"$z\x00"), Framing::Candidate(3));
    assert_eq!(frame(b"$z\x00\x01\x07\x08"), Framing::Candidate(5));
    assert_eq!(frame(b"$D\x00"), Framing::Candidate(3));
}

#[test]
fn buffer_is_cut_down_to_its_newest_bytes() {
    let mut reader = Reader::new();
    let mut stuck = b"DSP:".to_vec();
    stuck.extend(std::iter::repeat(b'1').take(MAX_BUFFER + 10));
    reader.push(&stuck);
    assert_eq!(reader.next_message_at(0), None);
    assert_eq!(reader.len(), MAX_BUFFER + 14);
    reader.trim();
    assert_eq!(reader.len(), MAX_BUFFER);
    reader.trim();
    assert_eq!(reader.len(), MAX_BUFFER);

    let mut rfe = RfExplorer::new();
    assert!(rfe.receive_at(&stuck, 0).is_empty());
    assert_eq!(rfe.pending(), MAX_BUFFER);
    // A line that ends at last is found to be no frame, and the reader goes on.
    let notices = rfe.receive_at(b"\r\nDSP:2\r\n", 0);
    assert_eq!(
        notices,
        vec![Notice {
            kind: MessageKind::DspMode,
            callback: None
        }]
    );
    assert_eq!(rfe.messages().dsp_mode(), Some(DspMode::Fast));
    assert_eq!(rfe.pending(), 0);
}

#[test]
fn largest_sweep_fits_the_buffer() {
    let mut stream = vec![b'$', b'z', 0xff, 0xff];
    stream.extend(std::iter::repeat(7u8).take(65535));
    stream.extend(b"\r\n");
    let mut rfe = RfExplorer::new();
    let (first, second) = stream.split_at(40_000);
    assert!(rfe.receive_at(first, 0).is_empty());
    assert_eq!(rfe.pending(), 40_000);
    assert_eq!(rfe.receive_at(second, 0).len(), 1);
    assert_eq!(rfe.messages().sweep().unwrap().amplitudes_half_dbm().len(), 65535);
}

#[test]
fn cache_holds_the_latest_message_of_each_kind() {
    let mut cache = MessageContainer::new();
    assert_eq!(cache.dsp_mode(), None);
    for mode in [DspMode::Auto, DspMode::Fast, DspMode::Filter] {
        cache.store(Message::DspMode(mode));
        cache.store(Message::TrackingStatus(TrackingStatus::Enabled));
    }
    assert_eq!(cache.dsp_mode(), Some(DspMode::Filter));
    assert_eq!(cache.tracking_status(), Some(TrackingStatus::Enabled));
    assert_eq!(cache.input_stage(), None);
    for n in 1..=5i16 {
        cache.store(Message::Sweep(Sweep::Standard(SweepDataStandard::new(
            vec![-n],
            i64::from(n),
        ))));
    }
    assert_eq!(
        cache.sweep(),
        Some(Sweep::Standard(SweepDataStandard::new(vec![-5], 5)))
    );
    assert!(cache.is_met(&Expectation::DspMode(DspMode::Filter)));
    assert!(!cache.is_met(&Expectation::DspMode(DspMode::Fast)));
    cache.clear_tracking_status();
    assert_eq!(cache.tracking_status(), None);
    assert!(!cache.is_met(&Expectation::TrackingStatus));
}

#[test]
fn unknown_prefix_is_an_unknown_message_type() {
    for bytes in [&b""[..], b"#", b"#C2-", b"hello", b"$X", b"\r\n"] {
        assert_eq!(
            Message::received_at(bytes, 0).unwrap_err(),
            MessageParseError::UnknownMessageType
        );
    }
    assert_eq!(
        Message::received_at(b"DSP:", 0).unwrap_err(),
        MessageParseError::Incomplete
    );
    assert_eq!(
        Message::received_at(b"DSP:x", 0).unwrap_err(),
        MessageParseError::Invalid
    );
    assert_eq!(
        Message::received_at(b"DSP:4", 0).unwrap_err(),
        MessageParseError::Invalid
    );
    assert_eq!(
        Message::received_at(b"#a3", 0).unwrap_err(),
        MessageParseError::Invalid
    );
    assert_eq!(
        Message::received_at(b"#K2", 0).unwrap_err(),
        MessageParseError::Invalid
    );
}

#[test]
fn try_from_stamps_sweeps_with_the_clock() {
    let before = chrono::Utc::now().timestamp_millis();
    let message = Message::try_from(&[b'$', b'S', 1, 4][..]).unwrap();
    let after = chrono::Utc::now().timestamp_millis();
    match message {
        Message::Sweep(sweep) => {
            assert_eq!(sweep.amplitudes_half_dbm(), &[-4]);
            assert!(before <= sweep.timestamp() && sweep.timestamp() <= after);
            assert!(sweep.timestamp() > 1_600_000_000_000);
        }
        other => panic!("{:?}", other),
    }
    let mut reader = Reader::new();
    reader.push(&[b'$', b'S', 1, 4]);
    match reader.next_message() {
        Some(Message::Sweep(sweep)) => assert!(sweep.timestamp() >= before),
        other => panic!("{:?}", other),
    }
    let mut rfe = RfExplorer::new();
    assert_eq!(rfe.receive(&[b'$', b'S', 1, 4]).len(), 1);
    assert!(rfe.messages().sweep().unwrap().timestamp() >= before);
}

#[test]
fn parse_errors_describe_themselves() {
    assert_eq!(
        MessageParseError::Incomplete.message(),
        "Attempted to parse an incomplete message"
    );
    assert_eq!(
        MessageParseError::Truncated { remainder: None }.message(),
        "Attempted to parse a truncated message"
    );
    assert_eq!(
        MessageParseError::Invalid.message(),
        "Attempted to parse an invalid message"
    );
    assert_eq!(
        MessageParseError::UnknownMessageType.message(),
        "Attempted to parse an unknown message type"
    );
}

#[test]
fn cache_hands_out_the_slot_of_a_kind() {
    let mut cache = MessageContainer::new();
    for kind in [
        MessageKind::Config,
        MessageKind::Sweep,
        MessageKind::ScreenData,
        MessageKind::DspMode,
        MessageKind::InputStage,
        MessageKind::TrackingStatus,
        MessageKind::SerialNumber,
        MessageKind::SetupInfo,
    ] {
        assert_eq!(cache.get(kind), None);
    }
    let stream: [&[u8]; 7] = [
        b"#C2-F:0050000,0100000,+035,-120",
        b"$S\x01\x09",
        b"DSP:1",
        b"#a2",
        b"#K1",
        b"#SnB3AK7AL7CACAA74M",
        b"#C2-M:006,004,01.12B20",
    ];
    for bytes in stream {
        let message = Message::received_at(bytes, 1).unwrap();
        let notice = cache.store(message.clone());
        assert_eq!(cache.get(notice.kind), Some(message));
    }
    cache.store(Message::DspMode(DspMode::Fast));
    assert_eq!(cache.get(MessageKind::DspMode), Some(Message::DspMode(DspMode::Fast)));
    assert_eq!(
        cache.get(MessageKind::InputStage),
        Some(Message::InputStage(InputStage::Lna25dB))
    );
    assert_eq!(cache.get(MessageKind::ScreenData), None);
}

#[test]
fn every_port_is_tried_at_every_baud_rate_in_turn() {
    assert_eq!(attempts(0), vec![]);
    assert_eq!(
        attempts(2),
        vec![
            Attempt { port: 0, baud_rate: 500_000 },
            Attempt { port: 0, baud_rate: 2_400 },
            Attempt { port: 1, baud_rate: 500_000 },
            Attempt { port: 1, baud_rate: 2_400 },
        ]
    );
    assert!(is_rf_explorer_port(0x10C4, 0xEA60));
    assert!(!is_rf_explorer_port(0x10C4, 0xEA61));
    assert!(!is_rf_explorer_port(0x0403, 0xEA60));
}

#[test]
fn next_attempt_walks_the_plan_and_leaves_answered_ports_alone() {
    assert_eq!(next_attempt(0, None, false), None);
    let mut walked = Vec::new();
    let mut last = None;
    while let Some(attempt) = next_attempt(3, last, false) {
        walked.push(attempt);
        last = Some(attempt);
    }
    assert_eq!(walked, attempts(3));

    // The first port answers at once, the second at its second baud rate,
    // the third never.
    let answers = |attempt: &Attempt| {
        *attempt == Attempt { port: 0, baud_rate: 500_000 }
            || *attempt == Attempt { port: 1, baud_rate: 2_400 }
    };
    let mut tried = Vec::new();
    let mut last = None;
    let mut answered = false;
    while let Some(attempt) = next_attempt(3, last, answered) {
        answered = answers(&attempt);
        tried.push(attempt);
        last = Some(attempt);
    }
    assert_eq!(
        tried,
        vec![
            Attempt { port: 0, baud_rate: 500_000 },
            Attempt { port: 1, baud_rate: 500_000 },
            Attempt { port: 1, baud_rate: 2_400 },
            Attempt { port: 2, baud_rate: 500_000 },
            Attempt { port: 2, baud_rate: 2_400 },
        ]
    );
    assert_eq!(
        next_attempt(3, Some(Attempt { port: 2, baud_rate: 500_000 }), true),
        None
    );
    assert_eq!(
        next_attempt(3, Some(Attempt { port: 7, baud_rate: 500_000 }), false),
        None
    );
}
