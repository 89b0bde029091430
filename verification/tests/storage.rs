use rustwood::storage::{
    checksum, decode_config_sector, encode_config_sector, read_config_header, read_u32_le,
    write_u32_le, ConfigHeader, SectorError, CONFIG_SECTOR_SIZE, CONFIG_VERSION, HEADER_SIZE,
    PAYLOAD_MAX_SIZE,
};

const IDENTITY: &[u8] = b"\x08rustwood\x050.1.0";
const PAYLOAD: &[u8] = &[0, 20, 20, 20, 0, 0xF4, 0x03, 0xDC, 0x0B, 0];

#[test]
fn checksum_is_wrapping_byte_sum() {
    assert_eq!(checksum(&[]), 0);
    assert_eq!(checksum(&[1, 2, 3]), 6);
    assert_eq!(checksum(&[0xFF; 4]), 1020);
    let many = vec![0xFFu8; 16_843_010];
    assert_eq!(checksum(&many), 254);
}

#[test]
fn u32_fields_are_little_endian() {
    assert_eq!(read_u32_le(&[0x78, 0x56, 0x34, 0x12]), 0x1234_5678);
    assert_eq!(read_u32_le(&[0xFF, 0xFF, 0xFF, 0xFF, 0x00]), u32::MAX);
    let mut field = [0u8; 4];
    write_u32_le(&mut field, 0xDEAD_BEEF);
    assert_eq!(field, [0xEF, 0xBE, 0xAD, 0xDE]);
    for value in [0u32, 1, 255, 256, 0x0102_0304, u32::MAX] {
        write_u32_le(&mut field, value);
        assert_eq!(read_u32_le(&field), value);
    }
}

#[test]
fn encoded_sector_layout() {
    let sector = encode_config_sector(IDENTITY, PAYLOAD).unwrap();
    assert_eq!(sector.len(), CONFIG_SECTOR_SIZE);
    assert_eq!(&sector[0..4], b"RWCF");
    assert_eq!(sector[4], CONFIG_VERSION);
    assert_eq!(&sector[5..8], &[0, 0, 0]);
    assert_eq!(read_u32_le(&sector[8..12]) as usize, IDENTITY.len());
    assert_eq!(read_u32_le(&sector[12..16]) as usize, PAYLOAD.len());
    assert_eq!(read_u32_le(&sector[16..20]), checksum(PAYLOAD));
    let id_end = HEADER_SIZE + IDENTITY.len();
    assert_eq!(&sector[HEADER_SIZE..id_end], IDENTITY);
    assert_eq!(&sector[id_end..id_end + PAYLOAD.len()], PAYLOAD);
    assert!(sector[id_end + PAYLOAD.len()..].iter().all(|b| *b == 0));
}

#[test]
fn saved_sector_loads_back() {
    let sector = encode_config_sector(IDENTITY, PAYLOAD).unwrap();
    assert_eq!(
        read_config_header(&sector),
        Some(ConfigHeader {
            identity_len: IDENTITY.len(),
            payload_len: PAYLOAD.len(),
            payload_checksum: checksum(PAYLOAD),
        })
    );
    assert_eq!(decode_config_sector(&sector, IDENTITY), Some(PAYLOAD.to_vec()));
}

#[test]
fn sector_from_other_firmware_is_ignored() {
    let sector = encode_config_sector(IDENTITY, PAYLOAD).unwrap();
    assert_eq!(decode_config_sector(&sector, b"\x08rustwood\x050.2.0"), None);
    assert_eq!(decode_config_sector(&sector, b"\x08rustwood"), None);
}

#[test]
fn erased_or_foreign_sector_is_ignored() {
    let erased = [0xFFu8; CONFIG_SECTOR_SIZE];
    assert_eq!(read_config_header(&erased), None);
    assert_eq!(decode_config_sector(&erased, IDENTITY), None);
    let blank = [0u8; CONFIG_SECTOR_SIZE];
    assert_eq!(decode_config_sector(&blank, IDENTITY), None);
    let mut old_version = encode_config_sector(IDENTITY, PAYLOAD).unwrap();
    old_version[4] = 2;
    assert_eq!(read_config_header(&old_version), None);
    let mut bad_magic = encode_config_sector(IDENTITY, PAYLOAD).unwrap();
    bad_magic[3] = b'X';
    assert_eq!(decode_config_sector(&bad_magic, IDENTITY), None);
}

#[test]
fn corrupted_payload_or_lengths_are_ignored() {
    let mut corrupted = encode_config_sector(IDENTITY, PAYLOAD).unwrap();
    corrupted[HEADER_SIZE + IDENTITY.len() + 1] ^= 0x01;
    assert!(read_config_header(&corrupted).is_some());
    assert_eq!(decode_config_sector(&corrupted, IDENTITY), None);

    let mut zero_identity = encode_config_sector(IDENTITY, PAYLOAD).unwrap();
    write_u32_le(&mut zero_identity[8..12], 0);
    assert_eq!(read_config_header(&zero_identity), None);

    let mut zero_payload = encode_config_sector(IDENTITY, PAYLOAD).unwrap();
    write_u32_le(&mut zero_payload[12..16], 0);
    assert_eq!(read_config_header(&zero_payload), None);

    let mut too_long = encode_config_sector(IDENTITY, PAYLOAD).unwrap();
    write_u32_le(&mut too_long[12..16], (PAYLOAD_MAX_SIZE - IDENTITY.len() + 1) as u32);
    assert_eq!(read_config_header(&too_long), None);

    let mut huge = encode_config_sector(IDENTITY, PAYLOAD).unwrap();
    write_u32_le(&mut huge[8..12], u32::MAX);
    write_u32_le(&mut huge[12..16], u32::MAX);
    assert_eq!(read_config_header(&huge), None);
}

#[test]
fn oversized_contents_do_not_fit() {
    let identity = vec![7u8; 100];
    let fits = vec![1u8; PAYLOAD_MAX_SIZE - 100];
    let sector = encode_config_sector(&identity, &fits).unwrap();
    assert_eq!(decode_config_sector(&sector, &identity), Some(fits.clone()));
    let too_big = vec![1u8; PAYLOAD_MAX_SIZE - 99];
    assert_eq!(encode_config_sector(&identity, &too_big), Err(SectorError::SectorFull));
    let huge_identity = vec![7u8; PAYLOAD_MAX_SIZE + 1];
    assert_eq!(encode_config_sector(&huge_identity, &[]), Err(SectorError::SectorFull));
}

#[test]
fn empty_contents_do_not_load() {
    let empty_payload = encode_config_sector(IDENTITY, &[]).unwrap();
    assert_eq!(read_config_header(&empty_payload), None);
    assert_eq!(decode_config_sector(&empty_payload, IDENTITY), None);
    let empty_identity = encode_config_sector(&[], PAYLOAD).unwrap();
    assert_eq!(decode_config_sector(&empty_identity, &[]), None);
}
