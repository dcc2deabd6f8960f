use rfe::common::{ConnectionError, Error, Frequency};
use rfe::spectrum_analyzer::container::{
    Callback, Expectation, MessageKind, Notice, Reply, COMMAND_RESPONSE_TIMEOUT_MS,
    NEXT_SCREEN_DATA_TIMEOUT_MS, NEXT_SWEEP_TIMEOUT_MS, RECEIVE_INITIAL_DEVICE_INFO_TIMEOUT_MS,
};
use rfe::spectrum_analyzer::spectrum_analyzer::Probe;
use rfe::spectrum_analyzer::sweep::SweepDataStandard;
use rfe::spectrum_analyzer::{
    CalcMode, Config, DspMode, InputStage, Model, RadioModule, Request, RfExplorer,
    SpectrumAnalyzer, Sweep, TrackingStatus, WifiBand,
};

const WSUB3G: &[u8] = b"#C2-M:005,255,01.12B20\r\n";
const COMBO: &[u8] = b"#C2-M:006,004,01.12B20\r\n";
const PLUS: &[u8] = b"#C2-M:013,255,03.28\r\n";
const CONFIG_50_100: &[u8] = b"#C2-F:0050000,0100000,+035,-120\r\n";
const CONFIG_200_300: &[u8] = b"#C2-F:0200000,0300000,+000,-100\r\n";

fn engine(frames: &[&[u8]]) -> RfExplorer {
    let mut rfe = RfExplorer::new();
    for frame in frames {
        rfe.receive_at(frame, 0);
    }
    rfe
}

fn connected(frames: &[&[u8]]) -> SpectrumAnalyzer {
    SpectrumAnalyzer::connect(vec![Probe::Answered(engine(frames))]).unwrap()
}

#[test]
fn setup_frame_alone_fills_the_setup_slot_only() {
    let mut rfe = RfExplorer::new();
    let notices = rfe.receive_at(b"#C2-M:006,004,01.12B20\r\n", 0);
    assert_eq!(
        notices,
        vec![Notice {
            kind: MessageKind::SetupInfo,
            callback: None
        }]
    );
    assert_eq!(rfe.messages().main_radio_model(), Some(Model::Rfe6G));
    assert_eq!(rfe.messages().expansion_radio_model(), Some(Model::Rfe24G));
    assert_eq!(rfe.messages().serial_number(), None);
    assert_eq!(rfe.messages().config(), None);
    assert_eq!(rfe.pending(), 0);
    // The device has not sent its configuration: it is not identified yet.
    assert!(SpectrumAnalyzer::connect(vec![Probe::Answered(rfe)]).is_none());
}

#[test]
fn connected_device_reports_its_modules() {
    let sa = connected(&[COMBO, CONFIG_50_100]);
    assert_eq!(sa.main_radio_module().model(), Model::Rfe6G);
    assert_eq!(
        sa.expansion_radio_module(),
        Some(RadioModule::Expansion {
            model: Model::Rfe24G
        })
    );
    assert!(sa.serial_number().is_none());
    assert!(sa.main_radio_module().is_main());
    assert_eq!(sa.active_radio_module(), sa.main_radio_module());
    assert_eq!(sa.inactive_radio_module(), sa.expansion_radio_module());
}

#[test]
fn active_module_follows_the_configuration() {
    let sa = connected(&[
        COMBO,
        b"#C2-F:2400000,2500000,+000,-100,00112,1,000,000\r\n",
    ]);
    assert_eq!(
        sa.active_radio_module(),
        RadioModule::Expansion {
            model: Model::Rfe24G
        }
    );
    assert!(sa.active_radio_module().is_expansion());
    assert_eq!(
        sa.inactive_radio_module(),
        Some(RadioModule::Main {
            model: Model::Rfe6G
        })
    );
    // A device without an expansion module measures with its main module,
    // whatever its configuration claims.
    let single = connected(&[
        WSUB3G,
        b"#C2-F:2400000,2500000,+000,-100,00112,1,000,000\r\n",
    ]);
    assert_eq!(
        single.active_radio_module(),
        RadioModule::Main {
            model: Model::RfeWSub3G
        }
    );
    assert_eq!(single.inactive_radio_module(), None);
}

#[test]
fn set_start_stop_is_confirmed_by_the_echoed_configuration() {
    let mut sa = connected(&[WSUB3G, b"#C2-F:0200000,0300000,+035,-120\r\n"]);
    let request = sa
        .set_start_stop(Frequency::from_mhz(50), Frequency::from_mhz(100))
        .unwrap();
    assert_eq!(request.bytes, b"#\x20C2-F:0050000,0100000,+035,-120");
    assert_eq!(request.timeout_ms, COMMAND_RESPONSE_TIMEOUT_MS);
    let expectation = request.expectation.unwrap();
    assert_eq!(
        expectation,
        Expectation::Config {
            start: Frequency::from_mhz(50),
            stop: Frequency::from_mhz(100),
            min_amp_dbm: -120,
            max_amp_dbm: 35
        }
    );
    assert!(sa.wait_for_config_while(&expectation));
    sa.receive_at(CONFIG_50_100, 0);
    assert!(!sa.wait_for_config_while(&expectation));
    let reply = sa.wait_for(&expectation, request.timeout_ms).unwrap();
    assert_eq!(reply, Reply::Config(sa.config()));
    assert_eq!(sa.config().start, Frequency::from_mhz(50));
    assert_eq!(sa.config().stop, Frequency::from_mhz(100));
}

#[test]
fn set_start_stop_asks_for_nothing_when_the_device_is_set_already() {
    let sa = connected(&[WSUB3G, CONFIG_50_100]);
    let request = sa
        .set_start_stop(Frequency::from_mhz(50), Frequency::from_mhz(100))
        .unwrap();
    assert!(request.is_done());
    assert_eq!(request, Request::done());
}

#[test]
fn set_start_stop_times_out_when_the_device_stays_silent() {
    let sa = connected(&[WSUB3G, CONFIG_200_300]);
    let request = sa
        .set_start_stop(Frequency::from_mhz(50), Frequency::from_mhz(100))
        .unwrap();
    let expectation = request.expectation.unwrap();
    assert_eq!(
        sa.wait_for(&expectation, request.timeout_ms),
        Err(Error::TimedOut(2_000))
    );
}

#[test]
fn unrelated_frames_do_not_confirm_a_request() {
    let mut sa = connected(&[WSUB3G, CONFIG_200_300]);
    let request = sa
        .set_start_stop(Frequency::from_mhz(50), Frequency::from_mhz(100))
        .unwrap();
    let expectation = request.expectation.unwrap();
    sa.receive_at(b"DSP:1\r\n#K1\r\n#C2-F:0050000,0100001,+000,-100\r\n", 0);
    assert_eq!(
        sa.wait_for(&expectation, request.timeout_ms),
        Err(Error::TimedOut(COMMAND_RESPONSE_TIMEOUT_MS))
    );
}

#[test]
fn set_start_stop_refuses_what_the_model_cannot_sweep() {
    let sa = connected(&[WSUB3G, CONFIG_50_100]);
    let refused = [
        (Frequency::from_mhz(100), Frequency::from_mhz(100)),
        (Frequency::from_mhz(100), Frequency::from_mhz(50)),
        (Frequency::from_mhz(14), Frequency::from_mhz(100)),
        (Frequency::from_mhz(100), Frequency::from_mhz(2_701)),
        (Frequency::from_mhz(100), Frequency::from_mhz(701)),
        (Frequency::from_khz(100_000), Frequency::from_khz(100_111)),
    ];
    for (start, stop) in refused {
        assert!(matches!(
            sa.set_start_stop(start, stop),
            Err(Error::InvalidInput(_))
        ));
        assert!(matches!(
            sa.validate_start_stop(start, stop),
            Err(Error::InvalidInput(_))
        ));
    }
    let accepted = [
        (Frequency::from_mhz(15), Frequency::from_mhz(615)),
        (Frequency::from_khz(100_000), Frequency::from_khz(100_112)),
        (Frequency::from_mhz(2_100), Frequency::from_mhz(2_700)),
    ];
    for (start, stop) in accepted {
        assert_eq!(sa.validate_start_stop(start, stop), Ok(()));
    }
}

#[test]
fn amplitude_bounds_lie_between_minus_120_and_35() {
    assert_eq!(SpectrumAnalyzer::validate_min_max_amps(-120, 35), Ok(()));
    assert_eq!(SpectrumAnalyzer::validate_min_max_amps(-1, 0), Ok(()));
    for (min, max) in [(0, 0), (10, -10), (-121, 0), (0, 36), (-121, 36), (36, 37)] {
        assert!(matches!(
            SpectrumAnalyzer::validate_min_max_amps(min, max),
            Err(Error::InvalidInput(_))
        ));
    }
}

#[test]
fn set_min_max_amps_keeps_the_range() {
    let sa = connected(&[WSUB3G, CONFIG_50_100]);
    let request = sa.set_min_max_amps(-100, 0).unwrap();
    assert_eq!(request.bytes, b"#\x20C2-F:0050000,0100000,+000,-100");
    assert_eq!(
        request.expectation,
        Some(Expectation::Config {
            start: Frequency::from_mhz(50),
            stop: Frequency::from_mhz(100),
            min_amp_dbm: -100,
            max_amp_dbm: 0
        })
    );
    assert!(matches!(
        sa.set_min_max_amps(0, -100),
        Err(Error::InvalidInput(_))
    ));
}

#[test]
fn set_center_span_sets_half_the_span_to_either_side() {
    let sa = connected(&[WSUB3G, CONFIG_200_300]);
    let request = sa
        .set_center_span(Frequency::from_mhz(75), Frequency::from_mhz(50))
        .unwrap();
    assert_eq!(request.bytes, b"#\x20C2-F:0050000,0100000,+000,-100");
    assert!(matches!(
        sa.set_center_span(Frequency::from_mhz(75), Frequency::from_mhz(151)),
        Err(Error::InvalidInput(_))
    ));
    assert!(matches!(
        sa.set_center_span(Frequency::from_hz(u64::MAX), Frequency::from_mhz(2)),
        Err(Error::InvalidInput(_))
    ));
}

#[test]
fn sweep_points_are_rounded_down_to_sixteen_and_up_to_112() {
    let sa = connected(&[PLUS, b"#C2-F:0300000,0400000,+000,-100,00512,0,000,000\r\n"]);
    let cases = [
        (0u16, 112u16),
        (111, 112),
        (113, 112),
        (127, 112),
        (128, 128),
        (1000, 992),
        (4096, 4096),
        (4097, 4096),
        (65535, 65520),
    ];
    for (asked, expected) in cases {
        let request = sa.set_sweep_points(asked).unwrap();
        assert_eq!(
            request.expectation,
            Some(Expectation::SweepPoints(expected)),
            "asked for {}",
            asked
        );
        assert_eq!(request.timeout_ms, COMMAND_RESPONSE_TIMEOUT_MS);
    }
    assert_eq!(sa.set_sweep_points(1000).unwrap().bytes, b"#\x08CJ1000");
    assert_eq!(sa.set_sweep_points(4096).unwrap().bytes, b"#\x08CJ4096");
    assert_eq!(sa.set_sweep_points(4097).unwrap().bytes, b"#\x09CK04097");
    // The device reports 512 points already.
    assert!(sa.set_sweep_points(512).unwrap().is_done());
    assert!(sa.set_sweep_points(527).unwrap().is_done());
}

#[test]
fn sweep_points_are_confirmed_by_the_configuration() {
    let mut sa = connected(&[PLUS, b"#C2-F:0300000,0400000,+000,-100,00512,0,000,000\r\n"]);
    let request = sa.set_sweep_points(1000).unwrap();
    let expectation = request.expectation.unwrap();
    sa.receive_at(b"#C2-F:0300000,0400000,+000,-100,01000,0,000,000\r\n", 0);
    assert_eq!(
        sa.wait_for(&expectation, request.timeout_ms),
        Err(Error::TimedOut(2_000))
    );
    sa.receive_at(b"#C2-F:0300000,0400000,+000,-100,00992,0,000,000\r\n", 0);
    assert!(sa.wait_for(&expectation, request.timeout_ms).is_ok());
}

#[test]
fn only_plus_models_set_sweep_points() {
    let sa = connected(&[WSUB3G, CONFIG_50_100]);
    assert!(matches!(
        sa.set_sweep_points(512),
        Err(Error::InvalidOperation(_))
    ));
    assert!(matches!(
        sa.set_start_stop_sweep_points(Frequency::from_mhz(50), Frequency::from_mhz(100), 512),
        Err(Error::InvalidOperation(_))
    ));
}

#[test]
fn range_and_points_are_set_one_after_the_other() {
    let sa = connected(&[PLUS, b"#C2-F:0300000,0400000,+000,-100,00512,0,000,000\r\n"]);
    let (points, range) = sa
        .set_start_stop_sweep_points(Frequency::from_mhz(500), Frequency::from_mhz(600), 256)
        .unwrap();
    assert_eq!(points.bytes, b"#\x08CJ0256");
    assert_eq!(range.bytes, b"#\x20C2-F:0500000,0600000,+000,-100");
    assert!(matches!(
        sa.set_start_stop_sweep_points(Frequency::from_mhz(600), Frequency::from_mhz(500), 256),
        Err(Error::InvalidInput(_))
    ));
    let (points, range) = sa
        .set_center_span_sweep_points(Frequency::from_mhz(550), Frequency::from_mhz(100), 512)
        .unwrap();
    assert!(points.is_done());
    assert_eq!(range.bytes, b"#\x20C2-F:0500000,0600000,+000,-100");
}

#[test]
fn device_without_expansion_module_refuses_to_switch_to_it() {
    let sa = connected(&[WSUB3G, CONFIG_50_100]);
    assert!(sa.expansion_radio_module().is_none());
    assert!(matches!(
        sa.activate_expansion_radio_module(),
        Err(Error::InvalidOperation(_))
    ));
}

#[test]
fn modules_are_switched_and_confirmed() {
    let mut sa = connected(&[COMBO, b"#C2-F:4900000,5000000,+000,-100,00112,0,000,000\r\n"]);
    assert!(sa.activate_main_radio_module().is_done());
    let request = sa.activate_expansion_radio_module().unwrap();
    assert_eq!(request.bytes, [b'#', 5, b'C', b'M', 1]);
    assert_eq!(
        request.expectation,
        Some(Expectation::ExpansionRadioModuleActive)
    );
    let expectation = request.expectation.unwrap();
    assert_eq!(
        sa.wait_for(&expectation, request.timeout_ms),
        Err(Error::TimedOut(2_000))
    );
    sa.receive_at(b"#C2-F:2400000,2500000,+000,-100,00112,1,000,000\r\n", 0);
    assert!(sa.wait_for(&expectation, request.timeout_ms).is_ok());
    assert!(sa.activate_expansion_radio_module().unwrap().is_done());
    let back = sa.activate_main_radio_module();
    assert_eq!(back.bytes, [b'#', 5, b'C', b'M', 0]);
    assert_eq!(back.expectation, Some(Expectation::MainRadioModuleActive));
}

#[test]
fn dsp_mode_is_set_and_confirmed() {
    let mut sa = connected(&[WSUB3G, CONFIG_50_100]);
    assert_eq!(sa.dsp_mode(), None);
    let request = sa.set_dsp_mode(DspMode::Filter);
    assert_eq!(request.bytes, [b'#', 5, b'C', b'p', 1]);
    let expectation = request.expectation.unwrap();
    sa.receive_at(b"DSP:2\r\n", 0);
    assert_eq!(
        sa.wait_for(&expectation, request.timeout_ms),
        Err(Error::TimedOut(2_000))
    );
    sa.receive_at(b"DSP:1\r\n", 0);
    assert_eq!(
        sa.wait_for(&expectation, request.timeout_ms),
        Ok(Reply::DspMode(DspMode::Filter))
    );
    assert_eq!(sa.dsp_mode(), Some(DspMode::Filter));
    assert!(sa.set_dsp_mode(DspMode::Filter).is_done());
}

#[test]
fn tracking_request_forgets_the_old_status() {
    let mut sa = connected(&[WSUB3G, CONFIG_50_100, b"#K0\r\n"]);
    assert_eq!(sa.tracking_status(), Some(TrackingStatus::Disabled));
    let request = sa.request_tracking(100_000_000, 250_000).unwrap();
    assert_eq!(request.bytes, b"#\x16C3-K:0100000,0000250");
    assert_eq!(request.expectation, Some(Expectation::TrackingStatus));
    assert_eq!(sa.tracking_status(), None);
    let expectation = request.expectation.unwrap();
    assert_eq!(
        sa.wait_for(&expectation, request.timeout_ms),
        Err(Error::TimedOut(2_000))
    );
    sa.receive_at(b"#K1\r\n", 0);
    assert_eq!(
        sa.wait_for(&expectation, request.timeout_ms),
        Ok(Reply::TrackingStatus(TrackingStatus::Enabled))
    );
}

#[test]
fn tracking_request_refuses_what_the_command_has_no_room_for() {
    let mut sa = connected(&[WSUB3G, CONFIG_50_100, b"#K1\r\n"]);
    assert!(matches!(
        sa.request_tracking(10_000_000_000, 1_000),
        Err(Error::InvalidInput(_))
    ));
    assert_eq!(sa.tracking_status(), Some(TrackingStatus::Enabled));
}

#[test]
fn commands_without_an_answer_wait_for_nothing() {
    let sa = connected(&[WSUB3G, CONFIG_50_100]);
    let requests = [
        (sa.start_wifi_analyzer(WifiBand::FiveGhz), vec![b'#', 5, b'C', b'W', 2]),
        (sa.stop_wifi_analyzer(), vec![b'#', 5, b'C', b'W', 0]),
        (sa.tracking_step(258), vec![b'#', 5, b'k', 1, 2]),
        (sa.set_calc_mode(CalcMode::Max), vec![b'#', 5, b'C', b'+', 1]),
        (sa.set_input_stage(InputStage::Lna25dB), vec![b'#', 4, b'a', b'2']),
        (sa.set_offset_db(-10), vec![b'#', 5, b'C', b'O', 246]),
    ];
    for (request, bytes) in requests {
        assert_eq!(request.bytes, bytes);
        assert_eq!(request.expectation, None);
    }
}

#[test]
fn serial_number_is_asked_for_once() {
    let mut sa = connected(&[WSUB3G, CONFIG_50_100]);
    assert_eq!(sa.serial_number(), None);
    let request = sa.request_serial_number();
    assert_eq!(request.bytes, [b'#', 4, b'C', b'n']);
    let expectation = request.expectation.unwrap();
    assert_eq!(expectation, Expectation::SerialNumber);
    sa.receive_at(b"#SnB3AK7AL7CACAA74M\r\n", 0);
    match sa.wait_for(&expectation, request.timeout_ms) {
        Ok(Reply::SerialNumber(serial)) => assert_eq!(serial.as_str(), "B3AK7AL7CACAA74M"),
        other => panic!("{:?}", other),
    }
    assert_eq!(sa.serial_number().unwrap().as_str(), "B3AK7AL7CACAA74M");
    assert!(sa.request_serial_number().is_done());
}

#[test]
fn next_sweep_is_one_that_differs_from_the_last() {
    let mut sa = connected(&[WSUB3G, CONFIG_50_100]);
    let first = sa.wait_for_next_sweep();
    assert!(first.bytes.is_empty());
    assert_eq!(first.timeout_ms, NEXT_SWEEP_TIMEOUT_MS);
    assert_eq!(first.expectation, Some(Expectation::NextSweep(None)));
    let expectation = first.expectation.unwrap();
    assert_eq!(
        sa.wait_for(&expectation, first.timeout_ms),
        Err(Error::TimedOut(NEXT_SWEEP_TIMEOUT_MS))
    );
    sa.receive_at(&[b'$', b'S', 2, 10, 20, b'\r', b'\n'], 7);
    let sweep = Sweep::Standard(SweepDataStandard::new(vec![-10, -20], 7));
    assert_eq!(
        sa.wait_for(&expectation, first.timeout_ms),
        Ok(Reply::Sweep(sweep.clone()))
    );
    assert_eq!(sa.sweep(), Some(sweep.clone()));

    let second = sa.wait_for_next_sweep_with_timeout(500);
    assert_eq!(second.timeout_ms, 500);
    let expectation = second.expectation.unwrap();
    assert_eq!(expectation, Expectation::NextSweep(Some(sweep)));
    assert_eq!(
        sa.wait_for(&expectation, second.timeout_ms),
        Err(Error::TimedOut(500))
    );
    sa.receive_at(&[b'$', b'S', 2, 10, 20, b'\r', b'\n'], 8);
    assert!(sa.wait_for(&expectation, second.timeout_ms).is_ok());
}

#[test]
fn next_screen_data_is_one_that_differs_from_the_last() {
    let mut sa = connected(&[WSUB3G, CONFIG_50_100]);
    let request = sa.wait_for_next_screen_data();
    assert_eq!(request.timeout_ms, NEXT_SCREEN_DATA_TIMEOUT_MS);
    let expectation = request.expectation.unwrap();
    assert!(sa.wait_for(&expectation, request.timeout_ms).is_err());
    let mut frame = vec![b'$', b'D'];
    frame.extend(std::iter::repeat(0x81u8).take(1024));
    frame.extend(b"\r\n");
    sa.receive_at(&frame, 3);
    match sa.wait_for(&expectation, request.timeout_ms) {
        Ok(Reply::ScreenData(screen)) => {
            assert_eq!(screen.timestamp(), 3);
            assert!(screen.pixel(0, 0));
            assert!(!screen.pixel(0, 1));
            assert!(screen.pixel(127, 63));
        }
        other => panic!("{:?}", other),
    }
    let again = sa.wait_for_next_screen_data_with_timeout(10);
    assert_eq!(again.timeout_ms, 10);
    assert_eq!(
        sa.wait_for(&again.expectation.unwrap(), 10),
        Err(Error::TimedOut(10))
    );
}

#[test]
fn sweep_callback_is_called_for_every_sweep_in_order() {
    let mut sa = connected(&[WSUB3G, CONFIG_50_100]);
    sa.set_sweep_callback(Some(1));
    let notices = sa.receive_at(
        &[
            b'$', b'S', 3, 1, 2, 3, b'\r', b'\n', b'$', b'S', 2, 40, 50, b'\r', b'\n',
        ],
        9,
    );
    assert_eq!(
        notices,
        vec![
            Notice {
                kind: MessageKind::Sweep,
                callback: Some(Callback::Sweep {
                    callback: 1,
                    sweep: Sweep::Standard(SweepDataStandard::new(vec![-1, -2, -3], 9))
                })
            },
            Notice {
                kind: MessageKind::Sweep,
                callback: Some(Callback::Sweep {
                    callback: 1,
                    sweep: Sweep::Standard(SweepDataStandard::new(vec![-40, -50], 9))
                })
            },
        ]
    );
    assert_eq!(
        sa.sweep(),
        Some(Sweep::Standard(SweepDataStandard::new(vec![-40, -50], 9)))
    );
}

#[test]
fn setting_a_callback_replaces_the_one_before() {
    let mut sa = connected(&[WSUB3G, CONFIG_50_100]);
    sa.set_config_callback(Some(1));
    sa.set_config_callback(Some(2));
    let notices = sa.receive_at(CONFIG_200_300, 0);
    assert_eq!(
        notices,
        vec![Notice {
            kind: MessageKind::Config,
            callback: Some(Callback::Config {
                callback: 2,
                config: Config::try_from(CONFIG_200_300).unwrap()
            })
        }]
    );
    sa.set_config_callback(None);
    let notices = sa.receive_at(CONFIG_50_100, 0);
    assert_eq!(
        notices,
        vec![Notice {
            kind: MessageKind::Config,
            callback: None
        }]
    );
}

#[test]
fn handshake_asks_for_the_device_info() {
    let request = RfExplorer::handshake();
    assert_eq!(request.bytes, [b'#', 4, b'C', b'0']);
    assert_eq!(request.expectation, Some(Expectation::DeviceInfo));
    assert_eq!(request.timeout_ms, RECEIVE_INITIAL_DEVICE_INFO_TIMEOUT_MS);
    let mut rfe = RfExplorer::new();
    assert!(!rfe.messages().is_met(&Expectation::DeviceInfo));
    rfe.receive_at(CONFIG_50_100, 0);
    assert!(!rfe.messages().is_met(&Expectation::DeviceInfo));
    rfe.receive_at(WSUB3G, 0);
    assert_eq!(
        rfe.messages().wait_for(&Expectation::DeviceInfo, 5_000),
        Ok(Reply::DeviceInfo)
    );
}

#[test]
fn connect_takes_the_first_device_that_identified_itself() {
    let probes = vec![
        Probe::PortOpen,
        Probe::Answered(engine(&[WSUB3G])),
        Probe::Io,
        Probe::Answered(engine(&[COMBO, CONFIG_50_100])),
        Probe::Answered(engine(&[WSUB3G, CONFIG_200_300])),
    ];
    let sa = SpectrumAnalyzer::connect(probes).unwrap();
    assert_eq!(sa.main_radio_module().model(), Model::Rfe6G);
    assert!(SpectrumAnalyzer::connect(vec![]).is_none());
    assert!(SpectrumAnalyzer::connect(vec![Probe::PortOpen, Probe::Io]).is_none());
}

#[test]
fn connect_all_takes_every_device_in_order() {
    let probes = vec![
        Probe::PortOpen,
        Probe::Answered(engine(&[WSUB3G])),
        Probe::Answered(engine(&[COMBO, CONFIG_50_100])),
        Probe::Io,
        Probe::Answered(engine(&[WSUB3G, CONFIG_200_300])),
    ];
    let devices = SpectrumAnalyzer::connect_all(probes);
    assert_eq!(devices.len(), 2);
    assert_eq!(devices[0].main_radio_module().model(), Model::Rfe6G);
    assert_eq!(devices[1].main_radio_module().model(), Model::RfeWSub3G);
    assert!(SpectrumAnalyzer::connect_all(vec![]).is_empty());
}

#[test]
fn connect_with_name_reports_why_there_is_no_device() {
    assert_eq!(
        SpectrumAnalyzer::connect_with_name_and_baud_rate(Probe::PortOpen).err(),
        Some(ConnectionError::PortOpen)
    );
    assert_eq!(
        SpectrumAnalyzer::connect_with_name_and_baud_rate(Probe::Io).err(),
        Some(ConnectionError::Io)
    );
    assert_eq!(
        SpectrumAnalyzer::connect_with_name_and_baud_rate(Probe::Answered(engine(&[WSUB3G])))
            .err(),
        Some(ConnectionError::DeviceInfoTimeout)
    );
    let sa = SpectrumAnalyzer::connect_with_name_and_baud_rate(Probe::Answered(engine(&[
        WSUB3G,
        CONFIG_50_100,
    ])))
    .ok()
    .unwrap();
    assert_eq!(sa.config().start, Frequency::from_mhz(50));
    assert_eq!(sa.rfe().pending(), 0);
    assert_eq!(sa.input_stage(), None);
    assert!(sa.screen_data().is_none());
}

#[test]
fn refusals_say_what_is_wrong_first() {
    let sa = connected(&[WSUB3G, CONFIG_50_100]);
    let text = |r: Result<Request, Error>| match r {
        Err(Error::InvalidInput(text)) | Err(Error::InvalidOperation(text)) => text,
        other => panic!("{:?}", other),
    };
    // The range is looked at before the bounds.
    assert_eq!(
        text(sa.set_config(Frequency::from_mhz(100), Frequency::from_mhz(50), 10, -10)),
        "The start frequency must be less than the stop frequency"
    );
    assert_eq!(
        text(sa.set_config(Frequency::from_mhz(1), Frequency::from_mhz(5_000), 10, -10)),
        "The start frequency is not within the RF Explorer's frequency range"
    );
    assert_eq!(
        text(sa.set_config(Frequency::from_mhz(100), Frequency::from_mhz(5_000), 10, -10)),
        "The stop frequency is not within the RF Explorer's frequency range"
    );
    assert_eq!(
        text(sa.set_config(Frequency::from_mhz(100), Frequency::from_mhz(2_000), 10, -10)),
        "The span is not within the RF Explorer's span range"
    );
    assert_eq!(
        text(sa.set_config(Frequency::from_mhz(100), Frequency::from_mhz(200), 10, -10)),
        "The minimum amplitude must be less than the maximum amplitude"
    );
    assert_eq!(
        text(sa.set_config(Frequency::from_mhz(100), Frequency::from_mhz(200), -121, 36)),
        "The minimum amplitude is not within the RF Explorer's amplitude range of -120 to 35 dBm"
    );
    assert_eq!(
        text(sa.set_config(Frequency::from_mhz(100), Frequency::from_mhz(200), -120, 36)),
        "The maximum amplitude is not within the RF Explorer's amplitude range of -120 to 35 dBm"
    );
    assert_eq!(
        text(sa.set_sweep_points(512)),
        "Only RF Explorer 'Plus' models support setting the number of sweep points"
    );
    assert_eq!(
        text(sa.activate_expansion_radio_module()),
        "This RF Explorer does not contain an expansion radio module."
    );
    assert_eq!(
        text(sa.set_center_span(Frequency::from_mhz(1), Frequency::from_mhz(4))),
        "The span reaches beyond the frequencies that exist"
    );
}

#[test]
fn device_that_has_reported_no_bounds_cannot_be_given_a_range() {
    // Bounds of 0 and 0 dBm are no bounds that the display can show.
    let sa = connected(&[WSUB3G, b"#C2-F:0200000,0300000,+000,+000\r\n"]);
    assert!(matches!(
        sa.set_start_stop(Frequency::from_mhz(50), Frequency::from_mhz(100)),
        Err(Error::InvalidInput(_))
    ));
}

#[test]
fn answer_of_the_device_leaves_nothing_in_the_buffer() {
    let mut sa = connected(&[WSUB3G, CONFIG_200_300]);
    let request = sa
        .set_config(
            Frequency::from_hz(50_000_700),
            Frequency::from_hz(100_000_900),
            -120,
            35,
        )
        .unwrap();
    assert_eq!(request.bytes, b"#\x20C2-F:0050000,0100000,+035,-120");
    let mut answer = request.bytes[2..].to_vec();
    answer.insert(0, b'#');
    answer.extend(b"\r\n");
    let notices = sa.receive_at(&answer, 0);
    assert_eq!(notices.len(), 1);
    assert_eq!(sa.rfe().pending(), 0);
    assert_eq!(sa.config().start, Frequency::from_mhz(50));
    assert_eq!(sa.config().stop, Frequency::from_mhz(100));
    assert_eq!(
        sa.wait_for(&request.expectation.unwrap(), request.timeout_ms),
        Ok(Reply::Config(sa.config()))
    );
}
