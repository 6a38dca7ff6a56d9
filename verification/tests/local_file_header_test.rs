use zip_structs::io::{ByteSource, IoError, SeekFrom};
use zip_structs::zip_central_directory::ZipCDEntry;
use zip_structs::zip_error::ZipReadError;
use zip_structs::zip_local_file_header::ZipLocalFileHeader;

/// The bytes of a local file header and its payload.
fn lfh_bytes(method: u16, name: &[u8], extra: &[u8], payload: &[u8]) -> Vec<u8> {
    let mut bytes: Vec<u8> = vec![0x50, 0x4b, 0x03, 0x04];
    bytes.extend_from_slice(&0x0014u16.to_le_bytes());
    bytes.extend_from_slice(&0x0002u16.to_le_bytes());
    bytes.extend_from_slice(&method.to_le_bytes());
    bytes.extend_from_slice(&0xaaaau16.to_le_bytes());
    bytes.extend_from_slice(&0xbbbbu16.to_le_bytes());
    bytes.extend_from_slice(&0xcccc_ddddu32.to_le_bytes());
    bytes.extend_from_slice(&(payload.len() as u32).to_le_bytes());
    bytes.extend_from_slice(&0x0000_ffffu32.to_le_bytes());
    bytes.extend_from_slice(&(name.len() as u16).to_le_bytes());
    bytes.extend_from_slice(&(extra.len() as u16).to_le_bytes());
    bytes.extend_from_slice(name);
    bytes.extend_from_slice(extra);
    bytes.extend_from_slice(payload);
    bytes
}

fn cd_pointing_to(offset: u32) -> ZipCDEntry {
    let mut cd = ZipCDEntry::empty();
    cd.local_header_position = offset;
    cd
}

fn invalid_reason(e: ZipReadError) -> String {
    match e {
        ZipReadError::InvalidZipArchive { reason } => reason,
        other => panic!("{:?}", other),
    }
}

#[test]
fn header_and_payload_are_decoded() {
    let mut bytes = vec![0u8; 5];
    bytes.extend_from_slice(&lfh_bytes(8, b"file.bin", b"\x09\x08", b"compressed bytes"));
    bytes.extend_from_slice(b"what follows");
    let mut source = ByteSource::new(bytes);
    let header = ZipLocalFileHeader::from_central_directory(&mut source, &cd_pointing_to(5)).unwrap();
    assert_eq!(header.version_required_to_extract, 0x14);
    assert_eq!(header.general_purpose_flags, 2);
    assert_eq!(header.compression_method, 8);
    assert_eq!(header.last_mod_time, 0xaaaa);
    assert_eq!(header.last_mod_date, 0xbbbb);
    assert_eq!(header.crc32, 0xcccc_dddd);
    assert_eq!(header.compressed_size, 16);
    assert_eq!(header.uncompressed_size, 0xffff);
    assert_eq!(header.file_name_length, 8);
    assert_eq!(header.extra_field_length, 2);
    assert_eq!(header.file_name_raw, b"file.bin");
    assert_eq!(header.extra_field, b"\x09\x08");
    assert_eq!(header.compressed_data, b"compressed bytes");
    assert_eq!(header.starting_position_with_signature, 5);
    assert_eq!(header.starting_position_without_signature, 9);
    assert_eq!(source.position(), 5 + 30 + 8 + 2 + 16);
}

#[test]
fn lengths_are_those_of_the_header_itself() {
    let mut source = ByteSource::new(lfh_bytes(0, b"local-name", b"", b"data"));
    let mut cd = cd_pointing_to(0);
    cd.file_name_raw = b"other".to_vec();
    cd.file_name_length = 5;
    cd.compressed_size = 1000;
    cd.compression_method = 8;
    let header = ZipLocalFileHeader::from_central_directory(&mut source, &cd).unwrap();
    assert_eq!(header.file_name_raw, b"local-name");
    assert_eq!(header.file_name_length, 10);
    assert_eq!(header.file_name_raw.len(), header.file_name_length as usize);
    assert_eq!(header.compressed_size, 4);
    assert_eq!(header.compressed_data.len(), header.compressed_size as usize);
    assert_eq!(header.compression_method, 0);
}

#[test]
fn empty_payload_and_empty_name() {
    let mut source = ByteSource::new(lfh_bytes(0, b"", b"", b""));
    let header = ZipLocalFileHeader::read_and_generate_from_signature(&mut source).unwrap();
    assert_eq!(header.file_name_length, 0);
    assert!(header.file_name_raw.is_empty());
    assert!(header.compressed_data.is_empty());
    assert_eq!(source.position(), 30);
}

#[test]
fn empty_header_holds_nothing() {
    let header = ZipLocalFileHeader::empty();
    assert_eq!(header.version_required_to_extract, 0);
    assert_eq!(header.compression_method, 0);
    assert_eq!(header.compressed_size, 0);
    assert_eq!(header.file_name_length, 0);
    assert!(header.file_name_raw.is_empty());
    assert!(header.extra_field.is_empty());
    assert!(header.compressed_data.is_empty());
    assert_eq!(header.starting_position_with_signature, 0);
    assert_eq!(header.starting_position_without_signature, 0);
}

#[test]
fn resolve_does_not_depend_on_the_position() {
    let mut bytes = vec![0u8; 64];
    bytes.extend_from_slice(&lfh_bytes(0, b"n", b"e", b"payload"));
    let mut source = ByteSource::new(bytes.clone());
    let cd = cd_pointing_to(64);
    let first = ZipLocalFileHeader::from_central_directory(&mut source, &cd).unwrap();
    assert_eq!(source.seek(SeekFrom::Start(3)), Ok(3));
    let second = ZipLocalFileHeader::from_central_directory(&mut source, &cd).unwrap();
    assert_eq!(source.seek(SeekFrom::End(40)), Ok(bytes.len() as u64 + 40));
    let third = ZipLocalFileHeader::from_central_directory(&mut source, &cd).unwrap();
    assert_eq!(first, second);
    assert_eq!(first, third);
    assert_eq!(first.compressed_data, b"payload");
    assert_eq!(source.into_inner(), bytes);
}

#[test]
fn short_payload_is_invalid() {
    let whole = lfh_bytes(0, b"name", b"ex", b"payload");
    let mut source = ByteSource::new(whole[..whole.len() - 1].to_vec());
    assert_eq!(
        invalid_reason(
            ZipLocalFileHeader::read_and_generate_from_signature(&mut source).unwrap_err()
        ),
        "compressed data of a local file header is shorter than its declared size"
    );
    let mut source = ByteSource::new(whole[..30 + 4 + 2].to_vec());
    assert_eq!(
        invalid_reason(
            ZipLocalFileHeader::from_central_directory(&mut source, &cd_pointing_to(0))
                .unwrap_err()
        ),
        "compressed data of a local file header is shorter than its declared size"
    );
}

#[test]
fn short_name_and_short_extra_field_are_invalid() {
    let whole = lfh_bytes(0, b"name", b"ex", b"payload");
    let mut source = ByteSource::new(whole[..30].to_vec());
    assert_eq!(
        invalid_reason(
            ZipLocalFileHeader::read_and_generate_from_signature(&mut source).unwrap_err()
        ),
        "file name of a local file header is shorter than its declared length"
    );
    let mut source = ByteSource::new(whole[..33].to_vec());
    assert_eq!(
        invalid_reason(
            ZipLocalFileHeader::read_and_generate_from_signature(&mut source).unwrap_err()
        ),
        "file name of a local file header is shorter than its declared length"
    );
    let mut source = ByteSource::new(whole[..35].to_vec());
    assert_eq!(
        invalid_reason(
            ZipLocalFileHeader::read_and_generate_from_signature(&mut source).unwrap_err()
        ),
        "extra field of a local file header is shorter than its declared length"
    );
}

#[test]
fn header_cut_within_the_fixed_fields_is_a_read_failure() {
    let whole = lfh_bytes(0, b"name", b"", b"payload");
    for len in [0usize, 3, 4, 17, 29] {
        let mut source = ByteSource::new(whole[..len].to_vec());
        assert!(matches!(
            ZipLocalFileHeader::read_and_generate_from_signature(&mut source),
            Err(ZipReadError::IOError(IoError::UnexpectedEof))
        ));
    }
    let mut source = ByteSource::new(whole);
    assert!(matches!(
        ZipLocalFileHeader::from_central_directory(&mut source, &cd_pointing_to(4000)),
        Err(ZipReadError::IOError(IoError::UnexpectedEof))
    ));
}

#[test]
fn offset_without_signature_is_invalid() {
    let mut bytes = vec![0u8; 2];
    bytes.extend_from_slice(&lfh_bytes(0, b"name", b"", b"payload"));
    let mut source = ByteSource::new(bytes);
    assert_eq!(
        invalid_reason(
            ZipLocalFileHeader::from_central_directory(&mut source, &cd_pointing_to(1))
                .unwrap_err()
        ),
        "local file header signature (PK\\x03\\x04) was not found at the expected position"
    );
    assert!(ZipLocalFileHeader::from_central_directory(&mut source, &cd_pointing_to(2)).is_ok());
    let mut source = ByteSource::new(vec![0x50, 0x4b, 0x01, 0x02, 0, 0, 0, 0]);
    assert!(matches!(
        ZipLocalFileHeader::read_and_generate_from_signature(&mut source),
        Err(ZipReadError::InvalidZipArchive { .. })
    ));
}
