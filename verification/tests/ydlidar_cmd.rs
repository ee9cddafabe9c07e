use cdfr_robot::ydlidar::ydlidar_cmd::{YdlidarAddress, YdlidarCmd, YdlidarProtocol};

#[test]
fn test_command_as_bytes() {
    assert_eq!(YdlidarCmd::SyncByte.as_bytes(), &[0xA5]);
    assert_eq!(YdlidarCmd::GetAddress.as_bytes(), &[0x60]);
    assert_eq!(YdlidarCmd::GetParameter.as_bytes(), &[0x61]);
    assert_eq!(YdlidarCmd::GetVersion.as_bytes(), &[0x62]);
    assert_eq!(YdlidarCmd::Scan.as_bytes(), &[0x63]);
    assert_eq!(YdlidarCmd::Stop.as_bytes(), &[0x64]);
    assert_eq!(YdlidarCmd::Reset.as_bytes(), &[0x67]);
    assert_eq!(YdlidarCmd::SetBias.as_bytes(), &[0xD9]);
    assert_eq!(YdlidarCmd::SetDebugMode.as_bytes(), &[0xF0]);
}

#[test]
fn test_protocol_as_bytes() {
    assert_eq!(
        YdlidarProtocol::new(YdlidarAddress::Broadcast, YdlidarCmd::GetAddress, None).to_bytes(),
        &[0xA5, 0xA5, 0xA5, 0xA5, 0x00, 0x60, 0x00, 0x00, 0x60]
    );
}

#[test]
fn protocol_with_payload_sums_body() {
    let payload = [0x10u8, 0x20, 0xF0];
    let bytes = YdlidarProtocol::new(YdlidarAddress::Device2, YdlidarCmd::SetBias, Some(&payload))
        .to_bytes();
    // 0x02 + 0xD9 + 0x03 + 0x00 + 0x10 + 0x20 + 0xF0 = 0x1FE -> 0xFE
    assert_eq!(
        bytes,
        vec![0xA5, 0xA5, 0xA5, 0xA5, 0x02, 0xD9, 0x03, 0x00, 0x10, 0x20, 0xF0, 0xFE]
    );
}

#[test]
fn protocol_length_field_is_little_endian() {
    let payload = vec![0u8; 0x0102];
    let bytes = YdlidarProtocol::new(YdlidarAddress::Device1, YdlidarCmd::Scan, Some(&payload))
        .to_bytes();
    assert_eq!(bytes.len(), 0x0102 + 9);
    assert_eq!(&bytes[4..8], &[0x01, 0x63, 0x02, 0x01]);
    // 0x01 + 0x63 + 0x02 + 0x01 = 0x67
    assert_eq!(bytes[bytes.len() - 1], 0x67);
}

#[test]
fn protocol_length_field_holds_largest_payload() {
    let payload = vec![0u8; 0xFFFF];
    let bytes = YdlidarProtocol::new(YdlidarAddress::Broadcast, YdlidarCmd::Stop, Some(&payload))
        .to_bytes();
    assert_eq!(bytes.len(), 0xFFFF + 9);
    assert_eq!(&bytes[6..8], &[0xFF, 0xFF]);
    // 0x00 + 0x64 + 0xFF + 0xFF = 0x262 -> 0x62
    assert_eq!(bytes[bytes.len() - 1], 0x62);
}

#[test]
fn to_protocol_matches_new() {
    let packet = [1u8, 2];
    let a = YdlidarCmd::Reset
        .to_protocol(YdlidarAddress::Device3, Some(&packet))
        .to_bytes();
    let b = YdlidarProtocol::new(YdlidarAddress::Device3, YdlidarCmd::Reset, Some(&packet)).to_bytes();
    assert_eq!(a, b);
    assert_eq!(a, vec![0xA5, 0xA5, 0xA5, 0xA5, 0x04, 0x67, 0x02, 0x00, 0x01, 0x02, 0x70]);
}

#[test]
fn empty_payload_equals_no_payload() {
    let empty: [u8; 0] = [];
    let a = YdlidarProtocol::new(YdlidarAddress::Device1, YdlidarCmd::GetVersion, Some(&empty)).to_bytes();
    let b = YdlidarProtocol::new(YdlidarAddress::Device1, YdlidarCmd::GetVersion, None).to_bytes();
    assert_eq!(a, b);
}

#[test]
fn address_bytes_round_trip() {
    for a in [
        YdlidarAddress::Broadcast,
        YdlidarAddress::Device1,
        YdlidarAddress::Device2,
        YdlidarAddress::Device3,
    ] {
        assert_eq!(YdlidarAddress::try_from(a.as_u8()), Ok(a));
    }
    assert_eq!(YdlidarAddress::Device3.as_u8(), 0x04);
}

#[test]
fn address_try_from_rejects_other_bytes() {
    for b in 0u8..=255 {
        let r = YdlidarAddress::try_from(b);
        if [0u8, 1, 2, 4].contains(&b) {
            assert!(r.is_ok());
        } else {
            assert_eq!(r, Err(()));
        }
    }
}

#[test]
fn command_codes_are_distinct() {
    let cmds = [
        YdlidarCmd::SyncByte,
        YdlidarCmd::GetAddress,
        YdlidarCmd::GetParameter,
        YdlidarCmd::GetVersion,
        YdlidarCmd::Scan,
        YdlidarCmd::Stop,
        YdlidarCmd::Reset,
        YdlidarCmd::SetBias,
        YdlidarCmd::SetDebugMode,
    ];
    let mut codes: Vec<u8> = cmds.iter().map(|c| c.as_bytes()[0]).collect();
    codes.sort();
    codes.dedup();
    assert_eq!(codes.len(), cmds.len());
}
