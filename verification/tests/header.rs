use lux_vm::assembler::header::{
    Header, HeaderErrorKind, HEADER_LENGTH, MAIGC_NUMBER, VERSION,
};

#[test]
fn create_header() {
    let header = Header::default();

    assert_eq!(header.version, VERSION);
}

#[test]
fn encode_then_decode_header() {
    let mut header = Header::default();

    header.entry_point = 69;

    let bytes: Vec<u8> = header.bytes().to_vec();

    assert_eq!(bytes.len(), 64);

    match Header::decode(bytes) {
        Ok(header) => {
            assert_eq!(header.version, VERSION);

            assert_eq!(header.entry_point, 69);
        }
        Err(e) => panic!("{:?}", e),
    }
}

#[test]
fn fail_on_invalid_header_magic_number() {
    let mut bytes: Vec<u8> = Header::default().bytes().to_vec();

    bytes[0] = 0;

    match Header::decode(bytes) {
        Ok(_) => panic!("Magic number not validated correctly!"),
        Err(_) => {}
    }
}

#[test]
fn fail_on_invalid_header_version() {
    let mut bytes: Vec<u8> = Header::default().bytes().to_vec();

    bytes[MAIGC_NUMBER.len()] += 1;
    bytes[MAIGC_NUMBER.len() + 1] += 1;

    match Header::decode(bytes) {
        Ok(_) => panic!("Version not validated correctly!"),
        Err(_) => {}
    }
}

#[test]
fn header_bytes_are_laid_out_as_documented() {
    let mut header = Header::default();
    header.entry_point = 0x0403_0201;

    let bytes = header.bytes();

    let mut expected = vec![0x6c, 0x75, 0x78, 0x0d, 0x0a, 0, 0, 1, 2, 3, 4];
    expected.resize(HEADER_LENGTH, 0);
    assert_eq!(bytes, expected);
    assert_eq!(header.entry_point, 0x0403_0201);
}

#[test]
fn decode_reads_little_endian_fields() {
    let bytes = vec![0x6c, 0x75, 0x78, 0x0d, 0x0a, 0, 0, 0xF4, 0x01, 0, 0];
    let header = Header::decode(bytes).unwrap();
    assert_eq!(header.version, 0);
    assert_eq!(header.entry_point, 500);

    let bytes = vec![0x6c, 0x75, 0x78, 0x0d, 0x0a, 0, 0, 0xFF, 0xFF, 0xFF, 0xFF, 9, 9];
    assert_eq!(Header::decode(bytes).unwrap().entry_point, 0xFFFF_FFFF);
}

#[test]
fn each_header_failure_has_its_kind() {
    let kind = |bytes: Vec<u8>| Header::decode(bytes).unwrap_err().kind();

    assert_eq!(kind(vec![]), HeaderErrorKind::Truncated);
    assert_eq!(kind(vec![0x6c, 0x75, 0x78, 0x0d]), HeaderErrorKind::Truncated);
    assert_eq!(kind(vec![0x6c, 0x75, 0x78, 0x0d, 0x0b]), HeaderErrorKind::MagicNumber);
    assert_eq!(kind(vec![0, 0, 0, 0, 0, 0, 0, 0, 0, 0, 0]), HeaderErrorKind::MagicNumber);
    assert_eq!(kind(vec![0x6c, 0x75, 0x78, 0x0d, 0x0a]), HeaderErrorKind::Truncated);
    assert_eq!(kind(vec![0x6c, 0x75, 0x78, 0x0d, 0x0a, 0]), HeaderErrorKind::Truncated);
    assert_eq!(kind(vec![0x6c, 0x75, 0x78, 0x0d, 0x0a, 1, 0]), HeaderErrorKind::OutdatedVersion);
    assert_eq!(kind(vec![0x6c, 0x75, 0x78, 0x0d, 0x0a, 0, 1]), HeaderErrorKind::OutdatedVersion);
    assert_eq!(kind(vec![0x6c, 0x75, 0x78, 0x0d, 0x0a, 0, 0]), HeaderErrorKind::Truncated);
    assert_eq!(
        kind(vec![0x6c, 0x75, 0x78, 0x0d, 0x0a, 0, 0, 1, 2, 3]),
        HeaderErrorKind::Truncated
    );
}

#[test]
fn headers_round_trip() {
    for entry_point in [0usize, 1, 255, 256, 65535, 65536, 0x7FFF_FFFF, 0xFFFF_FFFF] {
        let mut header = Header::default();
        header.entry_point = entry_point;
        let bytes = header.bytes();
        assert_eq!(bytes.len(), HEADER_LENGTH);
        assert_eq!(Header::decode(bytes), Ok(header));
    }
}

#[test]
fn a_header_of_another_version_encodes_but_does_not_decode() {
    let mut header = Header::default();
    header.version = 0x0102;
    let bytes = header.bytes();
    assert_eq!(bytes[5], 0x02);
    assert_eq!(bytes[6], 0x01);
    assert_eq!(Header::decode(bytes).unwrap_err().kind(), HeaderErrorKind::OutdatedVersion);
}
