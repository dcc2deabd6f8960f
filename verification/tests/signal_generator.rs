use rfe::common::{Frequency, MessageParseError};
use rfe::signal_generator::{
    Attenuation, Config, ConfigAmpSweep, ConfigAmpSweepExp, ConfigCw, ConfigCwExp, ConfigExp,
    ConfigFreqSweep, ConfigFreqSweepExp, Message, Model, PowerLevel, RfPower, Temperature,
};

#[test]
fn parse_config() {
    let bytes = b"#C3-A:0186525,0000,0,0,1,3,0,00100\r\n";
    let config_amp_sweep = ConfigAmpSweep::try_from(bytes.as_ref()).unwrap();
    assert_eq!(config_amp_sweep.cw_freq_khz() as f64, 186_525.);
    assert_eq!(config_amp_sweep.sweep_power_steps(), 0);
    assert_eq!(config_amp_sweep.start_attenuation(), Attenuation::On);
    assert_eq!(config_amp_sweep.start_power_level(), PowerLevel::Lowest);
    assert_eq!(config_amp_sweep.stop_attenuation(), Attenuation::Off);
    assert_eq!(config_amp_sweep.stop_power_level(), PowerLevel::Highest);
    assert_eq!(config_amp_sweep.rf_power(), RfPower::On);
    assert_eq!(config_amp_sweep.sweep_delay_ms(), 100);
    assert_eq!(config_amp_sweep.cw_freq(), Frequency::from_khz(186_525));
}

#[test]
fn amp_sweep_config_rejects_values_that_do_not_exist() {
    let broken: [&[u8]; 6] = [
        b"#C3-A:0186525,0000,2,0,1,3,0,00100",
        b"#C3-A:0186525,0000,0,4,1,3,0,00100",
        b"#C3-A:0186525,0000,0,0,1,3,2,00100",
        b"#C3-A:0186525,0000,0,0,1,3,0,65536",
        b"#C3-A:0186525,0000,0,0,1,3,0,0010x",
        b"#C3-A:0186525,0000,0,0,1,3,0,00100\r\n\r\n",
    ];
    for bytes in broken {
        assert_eq!(
            ConfigAmpSweep::try_from(bytes).unwrap_err(),
            MessageParseError::Invalid
        );
    }
    assert_eq!(
        ConfigAmpSweep::try_from(b"#C3-A:0186525,0000,0,0,1,3,0,0010".as_ref()).unwrap_err(),
        MessageParseError::Incomplete
    );
    assert_eq!(
        ConfigAmpSweep::try_from(b"#C3-A:0186525,0000,0,0,1,3,0,65535".as_ref())
            .unwrap()
            .sweep_delay_ms(),
        65535
    );
}

#[test]
fn decode_generator_config() {
    let config =
        Config::try_from(b"#C3-*:0186525,0186600,0005,0001000,0,3,0010,1,0,0,2,1,00100\r\n".as_ref())
            .unwrap();
    assert_eq!(
        config,
        Config {
            start: Frequency::from_khz(186_525),
            cw: Frequency::from_khz(186_600),
            total_steps: 5,
            step: Frequency::from_mhz(1),
            attenuation: Attenuation::On,
            power_level: PowerLevel::Highest,
            sweep_power_steps: 10,
            start_attenuation: Attenuation::Off,
            start_power_level: PowerLevel::Lowest,
            stop_attenuation: Attenuation::On,
            stop_power_level: PowerLevel::High,
            rf_power: RfPower::Off,
            sweep_delay_ms: 100,
        }
    );
}

#[test]
fn decode_cw_config() {
    let config = ConfigCw::try_from(b"#C3-G:0186525,0005,0001000,1,1,0\r".as_ref()).unwrap();
    assert_eq!(
        config,
        ConfigCw {
            cw: Frequency::from_khz(186_525),
            total_steps: 5,
            step: Frequency::from_mhz(1),
            attenuation: Attenuation::Off,
            power_level: PowerLevel::Low,
            rf_power: RfPower::On,
        }
    );
}

#[test]
fn decode_freq_sweep_config() {
    let config =
        ConfigFreqSweep::try_from(b"#C3-F:0186525,0005,0001000,0,0,0,00100".as_ref()).unwrap();
    assert_eq!(
        config,
        ConfigFreqSweep {
            start: Frequency::from_khz(186_525),
            total_steps: 5,
            step: Frequency::from_mhz(1),
            attenuation: Attenuation::On,
            power_level: PowerLevel::Lowest,
            rf_power: RfPower::On,
            sweep_delay_ms: 100,
        }
    );
}

#[test]
fn decode_expansion_configs() {
    assert_eq!(
        ConfigCwExp::try_from(b"#C5-G:0186525,-40.0,1\r\n".as_ref()).unwrap(),
        ConfigCwExp {
            cw: Frequency::from_khz(186_525),
            power_tenth_dbm: -400,
            rf_power: RfPower::Off,
        }
    );
    assert_eq!(
        ConfigFreqSweepExp::try_from(b"#C5-F:0100000,0010,0000500,+05.5,0,00020".as_ref())
            .unwrap(),
        ConfigFreqSweepExp {
            start: Frequency::from_mhz(100),
            total_steps: 10,
            step: Frequency::from_khz(500),
            power_tenth_dbm: 55,
            rf_power: RfPower::On,
            sweep_delay_ms: 20,
        }
    );
    assert_eq!(
        ConfigAmpSweepExp::try_from(b"#C5-A:0100000,000.5,-30.0,010.0,00020".as_ref()).unwrap(),
        ConfigAmpSweepExp {
            cw: Frequency::from_mhz(100),
            step_power_tenth_db: 5,
            start_power_tenth_dbm: -300,
            stop_power_tenth_dbm: 100,
            sweep_delay_ms: 20,
        }
    );
    assert_eq!(
        ConfigExp::try_from(
            b"#C5-*:0100000,0150000,0010,0000500,-10.5,001.0,-30.0,+00.0,0,00020\r\n".as_ref()
        )
        .unwrap(),
        ConfigExp {
            start: Frequency::from_mhz(100),
            cw: Frequency::from_mhz(150),
            total_steps: 10,
            step: Frequency::from_khz(500),
            power_tenth_dbm: -105,
            step_power_tenth_db: 10,
            start_power_tenth_dbm: -300,
            stop_power_tenth_dbm: 0,
            rf_power: RfPower::On,
            sweep_delay_ms: 20,
        }
    );
    assert_eq!(
        ConfigCwExp::try_from(b"#C5-G:0186525,-40,0,1".as_ref()).unwrap_err(),
        MessageParseError::Invalid
    );
    assert_eq!(
        ConfigCwExp::try_from(b"#C5-G:0186525,-40.".as_ref()).unwrap_err(),
        MessageParseError::Incomplete
    );
    assert_eq!(
        ConfigCwExp::try_from(b"#C5-G:0186525,-99.9,0".as_ref())
            .unwrap()
            .power_tenth_dbm,
        -999
    );
    assert_eq!(
        ConfigCwExp::try_from(b"#C5-G:0186525,999.9,0".as_ref())
            .unwrap()
            .power_tenth_dbm,
        9999
    );
}

#[test]
fn decode_temperature() {
    assert_eq!(
        Temperature::try_from(b"#T:+025\r\n".as_ref()).unwrap(),
        Temperature { reading: 25 }
    );
    assert_eq!(
        Temperature::try_from(b"#T:-007".as_ref()).unwrap(),
        Temperature { reading: -7 }
    );
    assert_eq!(
        Temperature::try_from(b"#T:0105".as_ref()).unwrap(),
        Temperature { reading: 105 }
    );
    assert_eq!(
        Temperature::try_from(b"#T:+02".as_ref()).unwrap_err(),
        MessageParseError::Incomplete
    );
    assert_eq!(
        Temperature::try_from(b"#T:+-25".as_ref()).unwrap_err(),
        MessageParseError::Invalid
    );
}

#[test]
fn generator_messages_are_told_apart_by_their_prefix() {
    let frames: [(&[u8], fn(&Message) -> bool); 12] = [
        (
            b"#C3-*:0186525,0186600,0005,0001000,0,3,0010,1,0,0,2,1,00100\r\n",
            |m| matches!(m, Message::Config(_)),
        ),
        (b"#C3-A:0186525,0000,0,0,1,3,0,00100\r\n", |m| {
            matches!(m, Message::ConfigAmpSweep(_))
        }),
        (b"#C3-G:0186525,0005,0001000,1,1,0\r\n", |m| {
            matches!(m, Message::ConfigCw(_))
        }),
        (b"#C3-F:0186525,0005,0001000,0,0,0,00100\r\n", |m| {
            matches!(m, Message::ConfigFreqSweep(_))
        }),
        (
            b"#C5-*:0100000,0150000,0010,0000500,-10.5,001.0,-30.0,+00.0,0,00020\r\n",
            |m| matches!(m, Message::ConfigExp(_)),
        ),
        (b"#C5-A:0100000,000.5,-30.0,010.0,00020\r\n", |m| {
            matches!(m, Message::ConfigAmpSweepExp(_))
        }),
        (b"#C5-G:0186525,-40.0,1\r\n", |m| {
            matches!(m, Message::ConfigCwExp(_))
        }),
        (b"#C5-F:0100000,0010,0000500,+05.5,0,00020\r\n", |m| {
            matches!(m, Message::ConfigFreqSweepExp(_))
        }),
        (b"#SnB3AK7AL7CACAA74M\r\n", |m| {
            matches!(m, Message::SerialNumber(_))
        }),
        (b"#C3-M:060,255,01.15\r\n", |m| {
            matches!(m, Message::SetupInfo(_))
        }),
        (b"#T:+025\r\n", |m| matches!(m, Message::Temperature(_))),
        (b"#T:-100", |m| {
            matches!(m, Message::Temperature(Temperature { reading: -100 }))
        }),
    ];
    for (bytes, is_expected) in frames {
        let message = Message::received_at(bytes, 0).unwrap();
        assert!(is_expected(&message), "{:?}", message);
        assert_eq!(Message::try_from(bytes).unwrap(), message);
        assert_eq!(Message::parse(bytes).unwrap(), message);
    }
    let mut screen = vec![b'$', b'D'];
    screen.extend(std::iter::repeat(0u8).take(1024));
    match Message::received_at(&screen, 11).unwrap() {
        Message::ScreenData(data) => assert_eq!(data.timestamp(), 11),
        other => panic!("{:?}", other),
    }
}

#[test]
fn generator_does_not_know_the_frames_of_an_analyzer() {
    for bytes in [
        &b"#C2-M:006,004,01.12B20\r\n"[..],
        b"#C2-F:0050000,0100000,+035,-120\r\n",
        b"$S\x01\x02",
        b"DSP:1",
        b"",
    ] {
        assert_eq!(
            Message::received_at(bytes, 0).unwrap_err(),
            MessageParseError::UnknownMessageType
        );
    }
    match Message::received_at(b"#C3-M:061,060,01.15", 0).unwrap() {
        Message::SetupInfo(info) => {
            assert_eq!(info.main_radio_model, Some(Model::Rfe6GenExpansion));
            assert_eq!(info.expansion_radio_model, Some(Model::Rfe6Gen));
        }
        other => panic!("{:?}", other),
    }
}
