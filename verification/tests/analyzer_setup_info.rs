use rfe::common::{MessageParseError, SetupInfo};
use rfe::signal_generator;
use rfe::spectrum_analyzer;
use rfe::spectrum_analyzer::Model;

#[test]
fn accept_analyzer_setup() {
    let setup = SetupInfo::<Model>::try_from(b"#C2-M:006,004,01.12B20\r\n".as_ref()).unwrap();
    assert_eq!(setup.main_radio_model, Some(Model::Rfe6G));
    assert_eq!(setup.expansion_radio_model, Some(Model::Rfe24G));
    assert_eq!(setup.firmware_version, "01.12B20");
}

#[test]
fn expansion_is_absent_exactly_for_255() {
    let absent = SetupInfo::<Model>::try_from(b"#C2-M:003,255,01.12\r".as_ref()).unwrap();
    assert_eq!(absent.main_radio_model, Some(Model::RfeWSub1G));
    assert_eq!(absent.expansion_radio_model, None);
    let unknown = SetupInfo::<Model>::try_from(b"#C2-M:003,254,01.12".as_ref()).unwrap();
    assert_eq!(unknown.expansion_radio_model, Some(Model::Unknown));
    let no_main = SetupInfo::<Model>::try_from(b"#C2-M:255,004,01.12".as_ref()).unwrap();
    assert_eq!(no_main.main_radio_model, None);
    assert_eq!(no_main.expansion_radio_model, Some(Model::Rfe24G));
}

#[test]
fn setup_frame_may_hold_an_empty_firmware_version() {
    let setup = SetupInfo::<Model>::try_from(b"#C2-M:006,004,\r\n".as_ref()).unwrap();
    assert_eq!(setup.firmware_version, "");
}

#[test]
fn setup_frame_that_stops_early_is_incomplete() {
    for end in 0..14 {
        let bytes = &b"#C2-M:006,004,"[..end];
        assert_eq!(
            SetupInfo::<Model>::try_from(bytes).unwrap_err(),
            MessageParseError::Incomplete
        );
    }
}

#[test]
fn setup_frame_with_a_broken_layout_is_invalid() {
    let broken: [&[u8]; 7] = [
        b"#C3-M:006,004,01.12",
        b"#C2-M:06,004,01.12",
        b"#C2-M:006;004,01.12",
        b"#C2-M:006,0x4,01.12",
        b"#C2-M:006,004,01.12\n",
        b"#C2-M:006,004,01.12\r\nX",
        b"#C2-M:256,004,01.12",
    ];
    for bytes in broken {
        assert_eq!(
            SetupInfo::<Model>::try_from(bytes).unwrap_err(),
            MessageParseError::Invalid
        );
    }
    assert_eq!(
        SetupInfo::<Model>::try_from(b"#C2-M:006,004,01\xC3\xA9".as_ref()).unwrap_err(),
        MessageParseError::Invalid
    );
}

#[test]
fn setup_info_duplicates() {
    let setup = SetupInfo::<Model>::try_from(b"#C2-M:006,004,01.12B20\r\n".as_ref()).unwrap();
    assert_eq!(setup.duplicate(), setup);
}
#[test]
fn unknown_model_bytes_decode_to_unknown() {
    assert_eq!(spectrum_analyzer::Model::from_byte(7), spectrum_analyzer::Model::Unknown);
    assert_eq!(spectrum_analyzer::Model::from_byte(200), spectrum_analyzer::Model::Unknown);
    assert_eq!(signal_generator::Model::from_byte(6), signal_generator::Model::Unknown);
    assert_eq!(signal_generator::Model::from_byte(60), signal_generator::Model::Rfe6Gen);
    assert_eq!(
        spectrum_analyzer::Model::from_byte(10),
        spectrum_analyzer::Model::RfeWSub1GPlus
    );
}

