use rfe::common::MessageParseError;
use rfe::spectrum_analyzer::sweep::{Sweep, SweepDataExt, SweepDataLarge, SweepDataStandard};

fn dbm(half_dbm: &[i16]) -> Vec<f32> {
    half_dbm.iter().map(|&half| f32::from(half) / 2.).collect()
}

fn half(dbm: &[f32]) -> Vec<i16> {
    dbm.iter().map(|&amp| (amp * 2.) as i16).collect()
}

const AMPLITUDES_DBM: [f32; 112] = [
    -7.5, -68.0, -109.0, -26.0, -77.5, -116.5, -123.0, -117.5, -67.5, -56.5, -65.0,
    -37.0, -35.0, -125.5, -62.0, -93.0, -115.5, -57.5, -99.5, -101.5, -32.0, -56.0,
    -73.0, -12.0, -85.0, -98.5, -38.5, -52.5, -60.5, -69.5, -67.0, -45.5, -78.5, -22.0,
    -9.5, -83.5, -70.0, -32.5, -94.0, -43.0, -14.0, -122.0, -95.5, -13.0, -82.0, -27.5,
    -120.5, -8.0, -2.5, -77.0, -28.5, -54.5, -126.5, -105.5, -31.0, -23.5, -55.5,
    -76.0, -98.0, -36.5, -59.5, -89.0, -73.5, -44.0, -20.5, -125.0, -119.0, -123.5,
    -20.0, -48.5, -115.0, -51.0, -84.5, -75.5, -124.5, -58.0, -33.0, -2.0, -40.0,
    -117.0, -1.5, -91.5, -35.5, -53.5, -118.5, -99.0, -87.5, -89.5, -18.0, -10.5,
    -97.5, -121.5, -15.0, -45.0, -88.0, -18.5, -40.5, -76.5, -58.5, -25.5, -61.0,
    -41.5, -3.5, -94.5, -113.5, -10.0, -46.0, -3.0, -114.5, -60.0, -62.5, -119.5,
];

#[test]
fn parse_sweep() {
    let length = 112;
    let bytes = [
        b'$', b'S', length, 15, 136, 218, 52, 155, 233, 246, 235, 135, 113, 130, 74, 70, 251,
        124, 186, 231, 115, 199, 203, 64, 112, 146, 24, 170, 197, 77, 105, 121, 139, 134, 91,
        157, 44, 19, 167, 140, 65, 188, 86, 28, 244, 191, 26, 164, 55, 241, 16, 5, 154, 57,
        109, 253, 211, 62, 47, 111, 152, 196, 73, 119, 178, 147, 88, 41, 250, 238, 247, 40, 97,
        230, 102, 169, 151, 249, 116, 66, 4, 80, 234, 3, 183, 71, 107, 237, 198, 175, 179, 36,
        21, 195, 243, 30, 90, 176, 37, 81, 153, 117, 51, 122, 83, 7, 189, 227, 20, 92, 6, 229,
        120, 125, 239,
    ];
    let sweep_data = SweepDataStandard::try_from(&bytes[..]).unwrap();
    assert_eq!(dbm(sweep_data.amplitudes_half_dbm()), &AMPLITUDES_DBM);
}

#[test]
fn parse_sweep_ext() {
    let length = (112 / 16) - 1;
    let bytes = [
        b'$', b's', length, 15, 136, 218, 52, 155, 233, 246, 235, 135, 113, 130, 74, 70, 251,
        124, 186, 231, 115, 199, 203, 64, 112, 146, 24, 170, 197, 77, 105, 121, 139, 134, 91,
        157, 44, 19, 167, 140, 65, 188, 86, 28, 244, 191, 26, 164, 55, 241, 16, 5, 154, 57,
        109, 253, 211, 62, 47, 111, 152, 196, 73, 119, 178, 147, 88, 41, 250, 238, 247, 40, 97,
        230, 102, 169, 151, 249, 116, 66, 4, 80, 234, 3, 183, 71, 107, 237, 198, 175, 179, 36,
        21, 195, 243, 30, 90, 176, 37, 81, 153, 117, 51, 122, 83, 7, 189, 227, 20, 92, 6, 229,
        120, 125, 239,
    ];
    let sweep_data = SweepDataExt::try_from(&bytes[..]).unwrap();
    assert_eq!(dbm(sweep_data.amplitudes_half_dbm()), &AMPLITUDES_DBM);
}

#[test]
fn parse_sweep_large() {
    let length = 112u16.to_be_bytes();
    let bytes = [
        b'$', b'z', length[0], length[1], 15, 136, 218, 52, 155, 233, 246, 235, 135, 113, 130, 74, 70, 251,
        124, 186, 231, 115, 199, 203, 64, 112, 146, 24, 170, 197, 77, 105, 121, 139, 134, 91,
        157, 44, 19, 167, 140, 65, 188, 86, 28, 244, 191, 26, 164, 55, 241, 16, 5, 154, 57,
        109, 253, 211, 62, 47, 111, 152, 196, 73, 119, 178, 147, 88, 41, 250, 238, 247, 40, 97,
        230, 102, 169, 151, 249, 116, 66, 4, 80, 234, 3, 183, 71, 107, 237, 198, 175, 179, 36,
        21, 195, 243, 30, 90, 176, 37, 81, 153, 117, 51, 122, 83, 7, 189, 227, 20, 92, 6, 229,
        120, 125, 239,
    ];
    let sweep_data = SweepDataLarge::try_from(&bytes[..]).unwrap();
    assert_eq!(dbm(sweep_data.amplitudes_half_dbm()), &AMPLITUDES_DBM);
}

#[test]
fn reject_sweep_with_too_many_amplitudes() {
    let length = 112;
    let bytes = [
        b'$', b'S', length, 15, 136, 218, 52, 155, 233, 246, 235, 135, 113, 130, 74, 70, 251,
        124, 186, 231, 115, 199, 203, 64, 112, 146, 24, 170, 197, 77, 105, 121, 139, 134, 91,
        157, 44, 19, 167, 140, 65, 188, 86, 28, 244, 191, 26, 164, 55, 241, 16, 5, 154, 57,
        109, 253, 211, 62, 47, 111, 152, 196, 73, 119, 178, 147, 88, 41, 250, 238, 247, 40, 97,
        230, 102, 169, 151, 249, 116, 66, 4, 80, 234, 3, 183, 71, 107, 237, 198, 175, 179, 36,
        21, 195, 243, 30, 90, 176, 37, 81, 153, 117, 51, 122, 83, 7, 189, 227, 20, 92, 6, 229,
        120, 125, 239, 100,
    ];
    let sweep_data_error = SweepDataStandard::try_from(&bytes[..]).unwrap_err();
    assert_eq!(sweep_data_error, MessageParseError::Invalid);
}

#[test]
fn reject_sweep_with_too_few_amplitudes() {
    let length = 112;
    let bytes = [
        b'$', b'S', length, 15, 136, 218, 52, 155, 233, 246, 235, 135, 113, 130, 74, 70, 251,
        124, 186, 231, 115, 199, 203, 64, 112, 146, 24, 170, 197, 77, 105, 121, 139, 134, 91,
        157, 44, 19, 167, 140, 65, 188, 86, 28, 244, 191, 26, 164, 55, 241, 16, 5, 154, 57,
        109, 253, 211, 62, 47, 111, 152, 196, 73, 119, 178, 147, 88, 41, 250, 238, 247, 40, 97,
        230, 102, 169, 151, 249, 116, 66, 4, 80, 234, 3, 183, 71, 107, 237, 198, 175, 179, 36,
        21, 195, 243, 30, 90, 176, 37, 81, 153, 117, 51, 122, 83, 7, 189, 227, 20, 92, 6, 229,
        120, 125,
    ];
    let sweep_data_error = SweepDataStandard::try_from(&bytes[..]).unwrap_err();
    assert_eq!(sweep_data_error, MessageParseError::Incomplete);
}

#[test]
fn reject_sweep_with_eeot_bytes() {
    let length = 112;
    let bytes = [
        b'$', b'S', length, 255, 254, 255, 254, 0, 233, 246, 235, 135, 113, 130, 74, 70, 251,
        124, 186, 231, 115, 199, 203, 64, 112, 146, 24, 170, 197, 77, 105, 121, 139, 134, 91,
        157, 44, 19, 167, 140, 65, 188, 86, 28, 244, 191, 26, 164, 55, 241, 16, 5, 154, 57,
        109, 253, 211, 62, 47, 111, 152, 196, 73, 119, 178, 147, 88, 41, 250, 238, 247, 40, 97,
        230, 102, 169, 151, 249, 116, 66, 4, 80, 234, 3, 183, 71, 107, 237, 198, 175, 179, 36,
        21, 195, 243, 30, 90, 176, 37, 81, 153, 117, 51, 122, 83, 7, 189, 227, 20, 92, 6, 229,
        120, 125, 239,
    ];
    assert_eq!(
        SweepDataStandard::try_from(bytes.as_slice()).unwrap_err(),
        MessageParseError::Truncated {
            remainder: Some(&bytes[8..])
        }
    );
    assert_eq!(bytes[8..].len(), 107);
}

#[test]
fn reject_sweep_with_config_at_the_end() {
    let bytes = [
        36, 83, 112, 215, 210, 214, 212, 212, 216, 212, 210, 214, 213, 212, 215, 212, 212, 212,
        212, 220, 211, 215, 212, 212, 217, 213, 208, 214, 216, 210, 210, 213, 215, 216, 213,
        213, 217, 209, 216, 214, 217, 206, 210, 13, 10, 35, 67, 50, 45, 77, 58, 48, 48, 54, 44,
        48, 48, 52, 44, 48, 49, 46, 49, 50, 66, 50, 48, 13, 10,
    ];
    assert_eq!(
        SweepDataStandard::try_from(bytes.as_slice()).unwrap_err(),
        MessageParseError::Truncated {
            remainder: Some(&bytes[45..])
        }
    );
}

#[test]
fn add_sweeps() {
    let sweep1 = SweepDataStandard::new(half(&[-120., -110.]), 1);
    let sweep2 = SweepDataStandard::new(half(&[-100., -90.]), 2);
    let sweep3 = SweepDataStandard::new(half(&[-80., -70.]), 3);

    let sweep = sweep1 + sweep2 + sweep3;

    assert_eq!(
        dbm(sweep.amplitudes_half_dbm()),
        &[-120., -110., -100., -90., -80., -70.]
    );
    assert_eq!(sweep.timestamp(), 1);
}

#[test]
fn add_assign_sweeps() {
    let mut sweep = SweepDataStandard::new(half(&[-120., -110.]), 1);

    sweep += sweep.clone();

    assert_eq!(dbm(sweep.amplitudes_half_dbm()), &[-120., -110., -120., -110.]);
}

#[test]
fn default_sweep_is_empty_standard_sweep() {
    let sweep = Sweep::default();
    assert_eq!(sweep, Sweep::Standard(SweepDataStandard::new(Vec::new(), 0)));
    assert!(sweep.amplitudes_half_dbm().is_empty());
    assert_eq!(sweep.timestamp(), 0);
}

#[test]
fn first_ten_amplitudes_of_a_standard_sweep() {
    let bytes = [
        b'$', b'S', 112, 15, 136, 218, 52, 155, 233, 246, 235, 135, 113, 130, 74, 70, 251,
        124, 186, 231, 115, 199, 203, 64, 112, 146, 24, 170, 197, 77, 105, 121, 139, 134, 91,
        157, 44, 19, 167, 140, 65, 188, 86, 28, 244, 191, 26, 164, 55, 241, 16, 5, 154, 57,
        109, 253, 211, 62, 47, 111, 152, 196, 73, 119, 178, 147, 88, 41, 250, 238, 247, 40, 97,
        230, 102, 169, 151, 249, 116, 66, 4, 80, 234, 3, 183, 71, 107, 237, 198, 175, 179, 36,
        21, 195, 243, 30, 90, 176, 37, 81, 153, 117, 51, 122, 83, 7, 189, 227, 20, 92, 6, 229,
        120, 125, 239,
    ];
    let sweep_data = SweepDataStandard::received_at(&bytes[..], 42).unwrap();
    assert_eq!(
        dbm(&sweep_data.amplitudes_half_dbm()[..10]),
        &[-7.5, -68.0, -109.0, -26.0, -77.5, -116.5, -123.0, -117.5, -67.5, -56.5]
    );
    assert_eq!(sweep_data.amplitudes_half_dbm().len(), 112);
    assert_eq!(sweep_data.timestamp(), 42);
}

#[test]
fn amplitude_bytes_decode_to_minus_half_their_value() {
    let bytes = [b'$', b'S', 2, 0, 255];
    let sweep_data = SweepDataStandard::received_at(&bytes[..], 0).unwrap();
    assert_eq!(sweep_data.amplitudes_half_dbm(), &[0, -255]);
    assert_eq!(dbm(sweep_data.amplitudes_half_dbm()), &[0.0, -127.5]);
}

#[test]
fn sweep_may_end_in_a_line_ending() {
    let with_crlf = [b'$', b'S', 2, 10, 20, b'\r', b'\n'];
    let with_cr = [b'$', b'S', 2, 10, 20, b'\r'];
    let with_lf = [b'$', b'S', 2, 10, 20, b'\n'];
    assert_eq!(
        SweepDataStandard::received_at(&with_crlf[..], 0).unwrap().amplitudes_half_dbm(),
        &[-10, -20]
    );
    assert_eq!(
        SweepDataStandard::received_at(&with_cr[..], 0).unwrap().amplitudes_half_dbm(),
        &[-10, -20]
    );
    assert_eq!(
        SweepDataStandard::received_at(&with_lf[..], 0).unwrap_err(),
        MessageParseError::Invalid
    );
}

#[test]
fn sweep_with_a_foreign_prefix_is_invalid() {
    assert_eq!(
        SweepDataStandard::received_at(&[b'$', b's', 0][..], 0).unwrap_err(),
        MessageParseError::Invalid
    );
    assert_eq!(
        SweepDataExt::received_at(&[b'#', b's', 0][..], 0).unwrap_err(),
        MessageParseError::Invalid
    );
}

#[test]
fn sweep_that_stops_in_its_header_is_incomplete() {
    assert_eq!(
        SweepDataStandard::received_at(&[][..], 0).unwrap_err(),
        MessageParseError::Incomplete
    );
    assert_eq!(
        SweepDataStandard::received_at(&[b'$'][..], 0).unwrap_err(),
        MessageParseError::Incomplete
    );
    assert_eq!(
        SweepDataStandard::received_at(&[b'$', b'S'][..], 0).unwrap_err(),
        MessageParseError::Incomplete
    );
    assert_eq!(
        SweepDataLarge::received_at(&[b'$', b'z', 0][..], 0).unwrap_err(),
        MessageParseError::Incomplete
    );
}

#[test]
fn extended_sweep_holds_sixteen_amplitudes_per_unit_of_length() {
    let mut bytes = vec![b'$', b's', 0];
    bytes.extend((1..=16).map(|b| b as u8));
    let sweep_data = SweepDataExt::received_at(&bytes[..], 0).unwrap();
    let expected: Vec<i16> = (1..=16).map(|b| -b).collect();
    assert_eq!(sweep_data.amplitudes_half_dbm(), &expected[..]);
}

#[test]
fn large_sweep_reads_its_length_big_endian() {
    let mut bytes = vec![b'$', b'z', 1, 2];
    bytes.extend(std::iter::repeat(7u8).take(258));
    let sweep_data = SweepDataLarge::received_at(&bytes[..], 0).unwrap();
    assert_eq!(sweep_data.amplitudes_half_dbm().len(), 258);
    bytes.pop();
    assert_eq!(
        SweepDataLarge::received_at(&bytes[..], 0).unwrap_err(),
        MessageParseError::Incomplete
    );
}

#[test]
fn truncated_sweep_resumes_at_the_first_marker() {
    // An embedded configuration frame stands before the escape sequence.
    let bytes = [
        b'$', b'S', 40, 1, 2, b'#', b'C', b'2', b'-', b'F', b':', 255, 254, 255, 254, 0, 9,
    ];
    assert_eq!(
        SweepDataStandard::received_at(&bytes[..], 0).unwrap_err(),
        MessageParseError::Truncated {
            remainder: Some(&bytes[5..])
        }
    );
}

#[test]
fn escape_sequence_at_the_very_end_leaves_an_empty_remainder() {
    let bytes = [b'$', b'S', 40, 255, 254, 255, 254, 0];
    assert_eq!(
        SweepDataStandard::received_at(&bytes[..], 0).unwrap_err(),
        MessageParseError::Truncated {
            remainder: Some(&bytes[8..])
        }
    );
}

#[test]
fn equal_sweeps_are_the_same() {
    let a = Sweep::Standard(SweepDataStandard::new(vec![-1, -2], 5));
    let b = Sweep::Standard(SweepDataStandard::new(vec![-1, -2], 5));
    let later = Sweep::Standard(SweepDataStandard::new(vec![-1, -2], 6));
    let other = Sweep::Ext(SweepDataExt::new(vec![-1, -2], 5));
    assert!(a.same(&b));
    assert!(!a.same(&later));
    assert!(!a.same(&other));
    assert_eq!(a.duplicate(), a);
}
