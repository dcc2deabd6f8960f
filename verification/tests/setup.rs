use rfe::setup::{parse_field, parse_number};
use rfe::spectrum_analyzer::Model;
use rfe::{ParseSetupError, RfExplorerSetup};

#[test]
fn read_setup_field_by_field() {
    let setup = RfExplorerSetup::try_from(b"#C2-M:006,004,01.12B20").unwrap();
    assert_eq!(setup.main_model(), Model::Rfe6G);
    assert_eq!(setup.expansion_model(), Some(Model::Rfe24G));
    assert_eq!(setup.firmware_version(), "01.12B20");
}

#[test]
fn setup_expansion_is_absent_exactly_for_255() {
    let setup = RfExplorerSetup::try_from(b"#C2-M:003,255,01.12B20").unwrap();
    assert_eq!(setup.main_model(), Model::RfeWSub1G);
    assert_eq!(setup.expansion_model(), None);
    let unknown = RfExplorerSetup::try_from(b"#C2-M:003,099,01.12B20").unwrap();
    assert_eq!(unknown.expansion_model(), Some(Model::Unknown));
    let other = RfExplorerSetup::try_from(b"#C2-M:003,254,01.12B20").unwrap();
    assert_eq!(other.expansion_model(), Some(Model::Unknown));
}

#[test]
fn setup_main_model_that_is_not_known_is_unknown() {
    let setup = RfExplorerSetup::try_from(b"#C2-M:007,004,fw").unwrap();
    assert_eq!(setup.main_model(), Model::Unknown);
    assert_eq!(setup.expansion_model(), Some(Model::Rfe24G));
    assert_eq!(
        RfExplorerSetup::try_from(b"#C2-M:255,004,fw").unwrap_err(),
        ParseSetupError::ConvertToModelError(255)
    );
}

#[test]
fn setup_numbers_may_be_padded_and_signed() {
    let setup = RfExplorerSetup::try_from(b"#C2-M: 6 ,\t+4\r\n,v1").unwrap();
    assert_eq!(setup.main_model(), Model::Rfe6G);
    assert_eq!(setup.expansion_model(), Some(Model::Rfe24G));
    assert_eq!(setup.firmware_version(), "v1");
    let zeros = RfExplorerSetup::try_from(b"#C2-M:0000000000000000000000006,4,v1").unwrap();
    assert_eq!(zeros.main_model(), Model::Rfe6G);
    let wide = RfExplorerSetup::try_from("#C2-M:\u{2003}6\u{a0},\u{3000}4,v1".as_bytes()).unwrap();
    assert_eq!(wide.main_model(), Model::Rfe6G);
    assert_eq!(wide.expansion_model(), Some(Model::Rfe24G));
}

#[test]
fn setup_firmware_ends_before_the_line_ending() {
    let crlf = RfExplorerSetup::try_from(b"#C2-M:006,004,01.12B20\r\n").unwrap();
    assert_eq!(crlf.firmware_version(), "01.12B20");
    let cr = RfExplorerSetup::try_from(b"#C2-M:006,004,01.12B20\r").unwrap();
    assert_eq!(cr.firmware_version(), "01.12B20");
    let lf = RfExplorerSetup::try_from(b"#C2-M:006,004,01.12B20\n").unwrap();
    assert_eq!(lf.firmware_version(), "01.12B20\n");
    let twice = RfExplorerSetup::try_from(b"#C2-M:006,004,01.12B20\r\n\r\n").unwrap();
    assert_eq!(twice.firmware_version(), "01.12B20\r\n");
    let only = RfExplorerSetup::try_from(b"#C2-M:006,004,\r\n").unwrap();
    assert_eq!(only.firmware_version(), "");
}

#[test]
fn setup_firmware_is_the_third_field() {
    let cut = RfExplorerSetup::try_from(b"#C2-M:006,004,01.12,B20").unwrap();
    assert_eq!(cut.firmware_version(), "01.12");
    let empty = RfExplorerSetup::try_from(b"#C2-M:006,004,").unwrap();
    assert_eq!(empty.firmware_version(), "");
    let lossy = RfExplorerSetup::try_from(b"#C2-M:006,004,a\xffb").unwrap();
    assert_eq!(lossy.firmware_version(), "a\u{fffd}b");
    let utf8 = RfExplorerSetup::try_from("#C2-M:006,004,é".as_bytes()).unwrap();
    assert_eq!(utf8.firmware_version(), "é");
}

#[test]
fn setup_errors() {
    assert_eq!(
        RfExplorerSetup::try_from(b"#C3-M:060,255,01.15").unwrap_err(),
        ParseSetupError::InvalidFormatError
    );
    assert_eq!(
        RfExplorerSetup::try_from(b"").unwrap_err(),
        ParseSetupError::InvalidFormatError
    );
    assert_eq!(
        RfExplorerSetup::try_from(b"#C2-M:006").unwrap_err(),
        ParseSetupError::MissingFieldError
    );
    assert_eq!(
        RfExplorerSetup::try_from(b"#C2-M:006,004").unwrap_err(),
        ParseSetupError::MissingFieldError
    );
    assert_eq!(
        RfExplorerSetup::try_from(b"#C2-M:006,004\r\n").unwrap_err(),
        ParseSetupError::MissingFieldError
    );
    assert_eq!(
        RfExplorerSetup::try_from(b"#C2-M:").unwrap_err(),
        ParseSetupError::ParseIntError
    );
    assert_eq!(
        RfExplorerSetup::try_from(b"#C2-M:abc,004,fw").unwrap_err(),
        ParseSetupError::ParseIntError
    );
    assert_eq!(
        RfExplorerSetup::try_from(b"#C2-M:256,004,fw").unwrap_err(),
        ParseSetupError::ParseIntError
    );
    assert_eq!(
        RfExplorerSetup::try_from(b"#C2-M:-6,004,fw").unwrap_err(),
        ParseSetupError::ParseIntError
    );
    assert_eq!(
        RfExplorerSetup::try_from(b"#C2-M:006,4 4,fw").unwrap_err(),
        ParseSetupError::ParseIntError
    );
    assert_eq!(
        RfExplorerSetup::try_from(b"#C2-M:006,,fw").unwrap_err(),
        ParseSetupError::ParseIntError
    );
}

#[test]
fn setup_field_that_is_not_utf8_is_told_from_one_that_is_no_number() {
    assert_eq!(
        RfExplorerSetup::try_from(b"#C2-M:0\xff6,004,fw").unwrap_err(),
        ParseSetupError::Utf8Error
    );
    assert_eq!(
        RfExplorerSetup::try_from(b"#C2-M:006,\xc3,fw").unwrap_err(),
        ParseSetupError::Utf8Error
    );
    assert_eq!(
        RfExplorerSetup::try_from("#C2-M:é,004,fw".as_bytes()).unwrap_err(),
        ParseSetupError::ParseIntError
    );
    assert_eq!(
        RfExplorerSetup::try_from("#C2-M:006,٤,fw".as_bytes()).unwrap_err(),
        ParseSetupError::ParseIntError
    );
}

#[test]
fn setup_errors_describe_themselves() {
    assert_eq!(
        ParseSetupError::InvalidFormatError.message(),
        "Invalid RfExplorerSetup: expected bytes to start with #C2-M:"
    );
    assert_eq!(
        ParseSetupError::MissingFieldError.message(),
        "A required field is missing from the bytes"
    );
}

#[test]
fn parse_one_field() {
    assert_eq!(parse_field(Some(b"12")), Ok(12));
    assert_eq!(parse_field(Some(b" +255 ")), Ok(255));
    assert_eq!(parse_field(Some(b"\r\n7\t")), Ok(7));
    assert_eq!(parse_field(None), Err(ParseSetupError::MissingFieldError));
    assert_eq!(parse_field(Some(b"")), Err(ParseSetupError::ParseIntError));
    assert_eq!(parse_field(Some(b"+")), Err(ParseSetupError::ParseIntError));
    assert_eq!(parse_field(Some(b"   ")), Err(ParseSetupError::ParseIntError));
    assert_eq!(parse_field(Some(b"++1")), Err(ParseSetupError::ParseIntError));
    assert_eq!(parse_field(Some(b"\x80")), Err(ParseSetupError::Utf8Error));
    assert_eq!(
        parse_field(Some("\u{a0}".as_bytes())),
        Err(ParseSetupError::ParseIntError)
    );
}

#[test]
fn parse_one_number() {
    assert_eq!(parse_number(b"0"), Ok(0));
    assert_eq!(parse_number(b"+0"), Ok(0));
    assert_eq!(parse_number(b"255"), Ok(255));
    assert_eq!(parse_number(b"000255"), Ok(255));
    assert_eq!(parse_number(b"256"), Err(ParseSetupError::ParseIntError));
    assert_eq!(parse_number(b"99999999999999999999"), Err(ParseSetupError::ParseIntError));
    assert_eq!(parse_number(b" 1"), Err(ParseSetupError::ParseIntError));
    assert_eq!(parse_number(b"1 "), Err(ParseSetupError::ParseIntError));
    assert_eq!(parse_number(b"-1"), Err(ParseSetupError::ParseIntError));
    assert_eq!(parse_number(b""), Err(ParseSetupError::ParseIntError));
    assert_eq!(parse_number(b"+"), Err(ParseSetupError::ParseIntError));
    assert_eq!(parse_number(b"1+"), Err(ParseSetupError::ParseIntError));
}
