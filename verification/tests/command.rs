use rfe::common::Frequency;
use rfe::spectrum_analyzer::{CalcMode, Command, DspMode, InputStage, WifiBand};

#[test]
fn encode_set_config() {
    let command = Command::SetConfig {
        start: Frequency::from_mhz(50),
        stop: Frequency::from_mhz(100),
        min_amp_dbm: -120,
        max_amp_dbm: 35,
    };
    assert_eq!(command.to_bytes(), b"#\x20C2-F:0050000,0100000,+035,-120");
}

#[test]
fn encode_set_config_drops_what_is_below_one_khz() {
    let command = Command::SetConfig {
        start: Frequency::from_hz(5_249_000_999),
        stop: Frequency::from_hz(5_349_000_001),
        min_amp_dbm: -5,
        max_amp_dbm: 0,
    };
    assert_eq!(command.to_bytes(), b"#\x20C2-F:5249000,5349000,+000,-005");
}

#[test]
fn encode_sweep_points() {
    assert_eq!(Command::SetSweepPointsExt(112).to_bytes(), b"#\x08CJ0112");
    assert_eq!(Command::SetSweepPointsExt(4096).to_bytes(), b"#\x08CJ4096");
    assert_eq!(Command::SetSweepPointsLarge(4097).to_bytes(), b"#\x09CK04097");
    assert_eq!(Command::SetSweepPointsLarge(65535).to_bytes(), b"#\x09CK65535");
}

#[test]
fn encode_module_switches() {
    assert_eq!(Command::SwitchModuleMain.to_bytes(), [b'#', 5, b'C', b'M', 0]);
    assert_eq!(Command::SwitchModuleExp.to_bytes(), [b'#', 5, b'C', b'M', 1]);
}

#[test]
fn encode_tracking() {
    let command = Command::StartTracking {
        start: Frequency::from_mhz(100),
        step: Frequency::from_khz(250),
    };
    assert_eq!(command.to_bytes(), b"#\x16C3-K:0100000,0000250");
    assert_eq!(Command::TrackingStep(0x0102).to_bytes(), [b'#', 5, b'k', 1, 2]);
}

#[test]
fn encode_wifi_analyzer() {
    assert_eq!(
        Command::StartWifiAnalyzer(WifiBand::TwoPointFourGhz).to_bytes(),
        [b'#', 5, b'C', b'W', 1]
    );
    assert_eq!(
        Command::StartWifiAnalyzer(WifiBand::FiveGhz).to_bytes(),
        [b'#', 5, b'C', b'W', 2]
    );
    assert_eq!(Command::StopWifiAnalyzer.to_bytes(), [b'#', 5, b'C', b'W', 0]);
}

#[test]
fn encode_modes_and_stages() {
    assert_eq!(Command::SetCalcMode(CalcMode::Avg).to_bytes(), [b'#', 5, b'C', b'+', 2]);
    assert_eq!(Command::SetDsp(DspMode::Fast).to_bytes(), [b'#', 5, b'C', b'p', 2]);
    assert_eq!(
        Command::SetInputStage(InputStage::Attenuator30dB).to_bytes(),
        [b'#', 4, b'a', b'1']
    );
    assert_eq!(Command::SetOffsetDB(10).to_bytes(), [b'#', 5, b'C', b'O', 10]);
    assert_eq!(Command::SetOffsetDB(-1).to_bytes(), [b'#', 5, b'C', b'O', 255]);
    assert_eq!(Command::SetOffsetDB(-128).to_bytes(), [b'#', 5, b'C', b'O', 128]);
}

#[test]
fn encode_requests() {
    assert_eq!(Command::RequestConfig.to_bytes(), [b'#', 4, b'C', b'0']);
    assert_eq!(Command::RequestSerialNumber.to_bytes(), [b'#', 4, b'C', b'n']);
}

#[test]
fn length_byte_counts_the_whole_command() {
    let commands = [
        Command::RequestConfig,
        Command::SwitchModuleExp,
        Command::SetSweepPointsExt(1000),
        Command::SetSweepPointsLarge(10_000),
        Command::TrackingStep(7),
        Command::SetConfig {
            start: Frequency::from_mhz(1),
            stop: Frequency::from_mhz(2),
            min_amp_dbm: -100,
            max_amp_dbm: 0,
        },
    ];
    for command in commands {
        let bytes = command.to_bytes();
        assert_eq!(bytes[0], b'#');
        assert_eq!(usize::from(bytes[1]), bytes.len());
    }
}

#[test]
fn commands_that_do_not_fit_their_fields_are_not_encoded() {
    let wide = Command::SetConfig {
        start: Frequency::from_mhz(1),
        stop: Frequency::from_mhz(10_000),
        min_amp_dbm: -100,
        max_amp_dbm: 0,
    };
    assert!(!wide.is_encodable());
    assert_eq!(wide.encode(), None);
    let loud = Command::SetConfig {
        start: Frequency::from_mhz(1),
        stop: Frequency::from_mhz(2),
        min_amp_dbm: -1000,
        max_amp_dbm: 0,
    };
    assert_eq!(loud.encode(), None);
    assert_eq!(Command::SetSweepPointsExt(10_000).encode(), None);
    assert_eq!(
        Command::StartTracking {
            start: Frequency::from_hz(9_999_999_999),
            step: Frequency::from_khz(10_000_000)
        }
        .encode(),
        None
    );
    assert_eq!(
        Command::SetSweepPointsExt(9_999).encode(),
        Some(b"#\x08CJ9999".to_vec())
    );
    assert_eq!(
        Command::StartTracking {
            start: Frequency::from_hz(9_999_999_999),
            step: Frequency::from_hz(999)
        }
        .encode(),
        Some(b"#\x16C3-K:9999999,0000000".to_vec())
    );
    assert_eq!(
        Command::SetConfig {
            start: Frequency::from_mhz(1),
            stop: Frequency::from_mhz(2),
            min_amp_dbm: -999,
            max_amp_dbm: 999,
        }
        .encode(),
        Some(b"#\x20C2-F:0001000,0002000,+999,-999".to_vec())
    );
}
