use ptcp::FormatError;
use ptcp::PTCPPayload;

fn sample_payload(len: usize) -> PTCPPayload {
    PTCPPayload { realm: 0x0102_0304, data: (0..len).map(|i| (i % 251) as u8).collect() }
}

#[test]
fn payload_serialize_layout() {
    let p = PTCPPayload { realm: 0x0102_0304, data: vec![0xAA, 0xBB, 0xCC] };
    assert_eq!(
        p.serialize(),
        vec![0x10, 0x00, 0x00, 0x03, 0x01, 0x02, 0x03, 0x04, 0x00, 0x00, 0x00, 0x00, 0xAA, 0xBB, 0xCC]
    );
}

#[test]
fn payload_serialize_empty_data() {
    let p = PTCPPayload { realm: 0xFFFF_FFFF, data: vec![] };
    assert_eq!(p.serialize(), vec![0x10, 0, 0, 0, 0xFF, 0xFF, 0xFF, 0xFF, 0, 0, 0, 0]);
}

#[test]
fn payload_serialize_length_in_low_bytes() {
    let p = sample_payload(0x0123);
    let bytes = p.serialize();
    assert_eq!(bytes.len(), 12 + 0x0123);
    assert_eq!(&bytes[0..4], &[0x10, 0x00, 0x01, 0x23]);
    assert_eq!(&bytes[8..12], &[0, 0, 0, 0]);
    assert_eq!(&bytes[12..], &p.data[..]);
}

#[test]
fn payload_parse_reads_fields() {
    let bytes = [0x10, 0x00, 0x00, 0x02, 0xDE, 0xAD, 0xBE, 0xEF, 0, 0, 0, 0, 7, 9];
    let p = PTCPPayload::parse(&bytes).unwrap();
    assert_eq!(p.realm, 0xDEAD_BEEF);
    assert_eq!(p.data, vec![7, 9]);
}

#[test]
fn payload_parse_ignores_second_header_byte() {
    let bytes = [0x10, 0x7F, 0x00, 0x01, 0, 0, 0, 1, 0, 0, 0, 0, 42];
    let p = PTCPPayload::parse(&bytes).unwrap();
    assert_eq!(p.realm, 1);
    assert_eq!(p.data, vec![42]);
}

#[test]
fn payload_round_trip() {
    for len in [0usize, 1, 11, 12, 16, 17, 255, 256, 4096] {
        let p = sample_payload(len);
        let back = PTCPPayload::parse(&p.serialize());
        assert!(back == Ok(p));
    }
}

#[test]
fn payload_round_trip_at_the_limit() {
    let p = sample_payload(0xFFFF);
    let bytes = p.serialize();
    assert_eq!(&bytes[0..4], &[0x10, 0x00, 0xFF, 0xFF]);
    assert!(PTCPPayload::parse(&bytes) == Ok(p));
}

#[test]
fn payload_of_65536_bytes_does_not_come_back() {
    let p = sample_payload(0x1_0000);
    let bytes = p.serialize();
    assert_eq!(&bytes[0..4], &[0x10, 0x01, 0x00, 0x00]);
    assert_eq!(PTCPPayload::parse(&bytes).err(), Some(FormatError::InvalidLength));
}

#[test]
fn payload_length_spills_into_the_tag() {
    let p = sample_payload(0x100_0000);
    let bytes = p.serialize();
    assert_eq!(&bytes[0..4], &[0x11, 0x00, 0x00, 0x00]);
    assert_eq!(PTCPPayload::parse(&bytes).err(), Some(FormatError::InvalidHeader));
}

#[test]
fn payload_parse_too_short() {
    assert_eq!(PTCPPayload::parse(&[]).err(), Some(FormatError::InvalidPayload));
    let eleven = [0x10, 0, 0, 0, 0, 0, 0, 0, 0, 0, 0];
    assert_eq!(PTCPPayload::parse(&eleven).err(), Some(FormatError::InvalidPayload));
}

#[test]
fn payload_parse_bad_tag() {
    let bytes = [0x11, 0, 0, 0, 0, 0, 0, 0, 0, 0, 0, 0];
    assert_eq!(PTCPPayload::parse(&bytes).err(), Some(FormatError::InvalidHeader));
}

#[test]
fn payload_parse_bad_padding() {
    for at in 8..12 {
        let mut bytes = [0x10, 0, 0, 0, 0, 0, 0, 0, 0, 0, 0, 0];
        bytes[at] = 1;
        assert_eq!(PTCPPayload::parse(&bytes).err(), Some(FormatError::InvalidPadding));
    }
}

#[test]
fn payload_parse_bad_length() {
    let short = [0x10, 0, 0, 2, 0, 0, 0, 0, 0, 0, 0, 0, 1];
    assert_eq!(PTCPPayload::parse(&short).err(), Some(FormatError::InvalidLength));
    let long = [0x10, 0, 0, 0, 0, 0, 0, 0, 0, 0, 0, 0, 1];
    assert_eq!(PTCPPayload::parse(&long).err(), Some(FormatError::InvalidLength));
}

#[test]
fn payload_errors_come_in_order() {
    // A wrong tag is reported before a wrong padding, a wrong padding before a
    // wrong length.
    let tag_and_padding = [0x20, 0, 0, 9, 0, 0, 0, 0, 0, 0, 0, 1];
    assert_eq!(PTCPPayload::parse(&tag_and_padding).err(), Some(FormatError::InvalidHeader));
    let padding_and_length = [0x10, 0, 0, 9, 0, 0, 0, 0, 0, 0, 0, 1];
    assert_eq!(PTCPPayload::parse(&padding_and_length).err(), Some(FormatError::InvalidPadding));
}

#[test]
fn format_error_messages() {
    assert_eq!(FormatError::InvalidPacket.message(), "Invalid packet");
    assert_eq!(FormatError::InvalidMagic.message(), "Invalid magic");
    assert_eq!(FormatError::InvalidBody.message(), "Invalid body");
    assert_eq!(FormatError::InvalidPayload.message(), "Invalid payload");
    assert_eq!(FormatError::InvalidHeader.message(), "Invalid header");
    assert_eq!(FormatError::InvalidPadding.message(), "Invalid padding");
    assert_eq!(FormatError::InvalidLength.message(), "Invalid length");
}
