use rfe::common::{Frequency, MessageParseError};
use rfe::spectrum_analyzer::{CalcMode, Config, Mode};

#[test]
fn decode_short_config() {
    let config = Config::try_from(b"#C2-F:0050000,0100000,+035,-120\r\n".as_ref()).unwrap();
    assert_eq!(config.start, Frequency::from_mhz(50));
    assert_eq!(config.stop, Frequency::from_mhz(100));
    assert_eq!(config.max_amp_dbm, 35);
    assert_eq!(config.min_amp_dbm, -120);
    assert_eq!(config.sweep_points, 112);
    assert!(!config.is_expansion_radio_module_active);
    assert_eq!(config.mode, Mode::SpectrumAnalyzer);
    assert_eq!(config.calc_mode, CalcMode::Normal);
}

#[test]
fn decode_full_config() {
    let config =
        Config::try_from(b"#C2-F:5249000,5349000,-030,-118,04096,1,002,004\r\n".as_ref()).unwrap();
    assert_eq!(
        config,
        Config {
            start: Frequency::from_khz(5_249_000),
            stop: Frequency::from_khz(5_349_000),
            max_amp_dbm: -30,
            min_amp_dbm: -118,
            sweep_points: 4096,
            is_expansion_radio_module_active: true,
            mode: Mode::WifiAnalyzer,
            calc_mode: CalcMode::MaxHold,
        }
    );
}

#[test]
fn config_amplitudes_may_come_without_a_sign() {
    let config = Config::try_from(b"#C2-F:0050000,0100000,0035,-120".as_ref()).unwrap();
    assert_eq!(config.max_amp_dbm, 35);
    assert_eq!(config.min_amp_dbm, -120);
}

#[test]
fn config_may_end_in_cr_or_crlf_or_nothing() {
    let plain = Config::try_from(b"#C2-F:0050000,0100000,+035,-120".as_ref()).unwrap();
    let cr = Config::try_from(b"#C2-F:0050000,0100000,+035,-120\r".as_ref()).unwrap();
    let crlf = Config::try_from(b"#C2-F:0050000,0100000,+035,-120\r\n".as_ref()).unwrap();
    assert_eq!(plain, cr);
    assert_eq!(plain, crlf);
}

#[test]
fn config_that_stops_early_is_incomplete() {
    let frame = b"#C2-F:5249000,5349000,-030,-118,04096,1,002,004";
    for end in 0..31 {
        assert_eq!(
            Config::try_from(&frame[..end]).unwrap_err(),
            MessageParseError::Incomplete
        );
    }
    // A whole short form decodes; what follows it starts the full form.
    assert!(Config::try_from(&frame[..31]).is_ok());
    for end in 32..47 {
        assert_eq!(
            Config::try_from(&frame[..end]).unwrap_err(),
            MessageParseError::Incomplete
        );
    }
    assert!(Config::try_from(&frame[..47]).is_ok());
}

#[test]
fn config_with_a_broken_layout_is_invalid() {
    let broken: [&[u8]; 10] = [
        b"#C2-M:0050000,0100000,+035,-120",
        b"#C2-F:005000,0100000,+035,-120",
        b"#C2-F:0050000 0100000,+035,-120",
        b"#C2-F:0050000,0100000,+0a5,-120",
        b"#C2-F:0050000,0100000,+035,-120\n",
        b"#C2-F:0050000,0100000,+035,-120\r\n#",
        b"#C2-F:0050000,0100000,+035,-120,65536,0,000,000",
        b"#C2-F:0050000,0100000,+035,-120,00112,2,000,000",
        b"#C2-F:0050000,0100000,+035,-120,00112,0,003,000",
        b"#C2-F:0050000,0100000,+035,-120,00112,0,000,005",
    ];
    for bytes in broken {
        assert_eq!(Config::try_from(bytes).unwrap_err(), MessageParseError::Invalid);
    }
}

#[test]
fn config_matches_a_request_at_khz_resolution() {
    let config = Config::try_from(b"#C2-F:0050000,0100000,+035,-120".as_ref()).unwrap();
    assert!(config.contains_start_stop_amp_range(
        Frequency::from_mhz(50),
        Frequency::from_mhz(100),
        -120,
        35
    ));
    assert!(config.contains_start_stop_amp_range(
        Frequency::from_hz(50_000_999),
        Frequency::from_hz(100_000_001),
        -120,
        35
    ));
    assert!(!config.contains_start_stop_amp_range(
        Frequency::from_hz(50_001_000),
        Frequency::from_mhz(100),
        -120,
        35
    ));
    assert!(!config.contains_start_stop_amp_range(
        Frequency::from_mhz(50),
        Frequency::from_mhz(100),
        -119,
        35
    ));
}

#[test]
fn default_config_has_nothing_set() {
    let config = Config::default();
    assert_eq!(config.start, Frequency::from_hz(0));
    assert_eq!(config.stop, Frequency::from_hz(0));
    assert_eq!(config.sweep_points, 0);
    assert!(!config.is_expansion_radio_module_active);
    assert_eq!(config.mode, Mode::default());
}

#[test]
fn frequency_converts_and_computes() {
    let f = Frequency::from_khz(1_234);
    assert_eq!(f.as_hz(), 1_234_000);
    assert_eq!(f.as_khz(), 1_234);
    assert_eq!(f.as_mhz(), 1);
    assert_eq!(Frequency::from_mhz(2) + Frequency::from_khz(500), Frequency::from_khz(2_500));
    assert_eq!(Frequency::from_mhz(2) - Frequency::from_khz(500), Frequency::from_khz(1_500));
    assert_eq!(Frequency::from_mhz(2) / 4, Frequency::from_khz(500));
    assert_eq!(Frequency::from_hz(1).checked_sub(Frequency::from_hz(2)), None);
    assert_eq!(
        Frequency::from_hz(u64::MAX).checked_add(Frequency::from_hz(1)),
        None
    );
    assert_eq!(
        Frequency::from_hz(1).checked_add(Frequency::from_hz(2)),
        Some(Frequency::from_hz(3))
    );
    assert!(Frequency::from_hz(1) < Frequency::from_hz(2));
    assert_eq!(Frequency::default(), Frequency::from_hz(0));
}
