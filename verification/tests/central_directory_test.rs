use zip_structs::io::{ByteSource, IoError, SeekFrom};
use zip_structs::zip_central_directory::ZipCDEntry;
use zip_structs::zip_eocd::ZipEOCD;
use zip_structs::zip_error::ZipReadError;

/// The bytes of a central directory entry.
fn cd_bytes(flags: u16, lfh_at: u32, name: &[u8], extra: &[u8], comment: &[u8]) -> Vec<u8> {
    let mut bytes: Vec<u8> = vec![0x50, 0x4b, 0x01, 0x02];
    bytes.extend_from_slice(&0x031eu16.to_le_bytes());
    bytes.extend_from_slice(&0x000au16.to_le_bytes());
    bytes.extend_from_slice(&flags.to_le_bytes());
    bytes.extend_from_slice(&8u16.to_le_bytes());
    bytes.extend_from_slice(&0x1111u16.to_le_bytes());
    bytes.extend_from_slice(&0x2222u16.to_le_bytes());
    bytes.extend_from_slice(&0x3333_4444u32.to_le_bytes());
    bytes.extend_from_slice(&0x0000_0123u32.to_le_bytes());
    bytes.extend_from_slice(&0x0000_4567u32.to_le_bytes());
    bytes.extend_from_slice(&(name.len() as u16).to_le_bytes());
    bytes.extend_from_slice(&(extra.len() as u16).to_le_bytes());
    bytes.extend_from_slice(&(comment.len() as u16).to_le_bytes());
    bytes.extend_from_slice(&0x0005u16.to_le_bytes());
    bytes.extend_from_slice(&0x0001u16.to_le_bytes());
    bytes.extend_from_slice(&0x81a4_0000u32.to_le_bytes());
    bytes.extend_from_slice(&lfh_at.to_le_bytes());
    bytes.extend_from_slice(name);
    bytes.extend_from_slice(extra);
    bytes.extend_from_slice(comment);
    bytes
}

fn eocd_for(cd_start: u32, count: u16) -> ZipEOCD {
    let mut eocd = ZipEOCD::empty();
    eocd.cd_starting_position = cd_start;
    eocd.n_cd_entries = count;
    eocd.n_cd_entries_in_disk = count;
    eocd
}

fn invalid_reason(e: ZipReadError) -> String {
    match e {
        ZipReadError::InvalidZipArchive { reason } => reason,
        other => panic!("{:?}", other),
    }
}

#[test]
fn entry_with_every_region_is_decoded() {
    let mut bytes = vec![0u8; 3];
    bytes.extend_from_slice(&cd_bytes(0x0800, 0x0a0b_0c0d, b"dir/name", b"\x01\x02\x03", b"hi"));
    bytes.extend_from_slice(b"rest");
    let mut source = ByteSource::new(bytes);
    assert_eq!(source.seek(SeekFrom::Start(3)), Ok(3));
    let cd = ZipCDEntry::read_and_generate_from_signature(&mut source).unwrap();
    assert_eq!(source.position(), 3 + 46 + 8 + 3 + 2);
    assert_eq!(cd.version_made_by, 0x031e);
    assert_eq!(cd.version_required_to_extract, 0x000a);
    assert_eq!(cd.general_purpose_flags, 0x0800);
    assert_eq!(cd.compression_method, 8);
    assert_eq!(cd.last_mod_time, 0x1111);
    assert_eq!(cd.last_mod_date, 0x2222);
    assert_eq!(cd.crc32, 0x3333_4444);
    assert_eq!(cd.compressed_size, 0x123);
    assert_eq!(cd.uncompressed_size, 0x4567);
    assert_eq!(cd.file_name_length, 8);
    assert_eq!(cd.extra_field_length, 3);
    assert_eq!(cd.file_comment_length, 2);
    assert_eq!(cd.disk_number_start, 5);
    assert_eq!(cd.internal_file_attributes, 1);
    assert_eq!(cd.external_file_attributes, 0x81a4_0000);
    assert_eq!(cd.local_header_position, 0x0a0b_0c0d);
    assert_eq!(cd.file_name_raw, b"dir/name");
    assert_eq!(cd.extra_field, b"\x01\x02\x03");
    assert_eq!(cd.file_comment, b"hi");
    assert_eq!(cd.starting_position_with_signature, 3);
    assert_eq!(cd.starting_position_without_signature, 7);
}

#[test]
fn recovered_lengths_are_those_of_the_regions() {
    let names: [&[u8]; 4] = [b"", b"a", b"some/longer/name.txt", &[0xff; 300]];
    for name in names {
        let mut source = ByteSource::new(cd_bytes(0, 0, name, b"ex", b""));
        let cd = ZipCDEntry::read_and_generate_from_signature(&mut source).unwrap();
        assert_eq!(cd.file_name_length as usize, name.len());
        assert_eq!(cd.file_name_raw.len(), name.len());
        assert_eq!(cd.file_name_raw, name);
        assert_eq!(cd.extra_field.len(), cd.extra_field_length as usize);
        assert_eq!(cd.file_comment.len(), cd.file_comment_length as usize);
    }
}

#[test]
fn utf8_flag_is_bit_eleven() {
    let mut cd = ZipCDEntry::empty();
    assert!(!cd.is_encoded_in_utf8());
    cd.general_purpose_flags = 0x0800;
    assert!(cd.is_encoded_in_utf8());
    cd.general_purpose_flags = 0xf7ff;
    assert!(!cd.is_encoded_in_utf8());
    cd.general_purpose_flags = 0xffff;
    assert!(cd.is_encoded_in_utf8());
    cd.general_purpose_flags = 0x0400;
    assert!(!cd.is_encoded_in_utf8());
    cd.general_purpose_flags = 0x1000;
    assert!(!cd.is_encoded_in_utf8());
    cd.general_purpose_flags = 0x0808;
    assert!(cd.is_encoded_in_utf8());
}

#[test]
fn empty_entry_holds_nothing() {
    let cd = ZipCDEntry::empty();
    assert_eq!(cd.version_made_by, 0);
    assert_eq!(cd.general_purpose_flags, 0);
    assert_eq!(cd.compressed_size, 0);
    assert_eq!(cd.file_name_length, 0);
    assert_eq!(cd.local_header_position, 0);
    assert!(cd.file_name_raw.is_empty());
    assert!(cd.extra_field.is_empty());
    assert!(cd.file_comment.is_empty());
    assert_eq!(cd.starting_position_with_signature, 0);
    assert_eq!(cd.starting_position_without_signature, 0);
}

#[test]
fn entries_come_in_directory_order() {
    let mut bytes = vec![0u8; 20];
    // Directory order is not the order of the local headers.
    bytes.extend_from_slice(&cd_bytes(0, 900, b"first", b"", b"c1"));
    bytes.extend_from_slice(&cd_bytes(0x0800, 0, b"second", b"xx", b""));
    bytes.extend_from_slice(&cd_bytes(0, 450, b"third", b"", b""));
    let end = bytes.len() as u64;
    bytes.extend_from_slice(&[0u8; 7]);
    let mut source = ByteSource::new(bytes);
    let list = ZipCDEntry::all_from_eocd(&mut source, &eocd_for(20, 3)).unwrap();
    assert_eq!(list.len(), 3);
    assert_eq!(list[0].file_name_raw, b"first");
    assert_eq!(list[0].local_header_position, 900);
    assert_eq!(list[0].file_comment, b"c1");
    assert_eq!(list[0].starting_position_with_signature, 20);
    assert_eq!(list[1].file_name_raw, b"second");
    assert_eq!(list[1].local_header_position, 0);
    assert_eq!(list[1].extra_field, b"xx");
    assert!(list[1].is_encoded_in_utf8());
    assert_eq!(list[1].starting_position_with_signature, 20 + 46 + 5 + 2);
    assert_eq!(list[2].file_name_raw, b"third");
    assert_eq!(list[2].local_header_position, 450);
    assert_eq!(source.position(), end);
}

#[test]
fn declared_count_decides_how_many_are_read() {
    let mut bytes = cd_bytes(0, 0, b"a", b"", b"");
    bytes.extend_from_slice(&cd_bytes(0, 0, b"b", b"", b""));
    bytes.extend_from_slice(&cd_bytes(0, 0, b"c", b"", b""));
    let mut source = ByteSource::new(bytes);
    let two = ZipCDEntry::all_from_eocd(&mut source, &eocd_for(0, 2)).unwrap();
    assert_eq!(two.len(), 2);
    assert_eq!(two[1].file_name_raw, b"b");
    let none = ZipCDEntry::all_from_eocd(&mut source, &eocd_for(0, 0)).unwrap();
    assert!(none.is_empty());
    let from_second = ZipCDEntry::all_from_eocd(&mut source, &eocd_for(47, 2)).unwrap();
    assert_eq!(from_second.len(), 2);
    assert_eq!(from_second[0].file_name_raw, b"b");
    assert_eq!(from_second[1].file_name_raw, b"c");
}

#[test]
fn one_bad_entry_fails_the_whole_list() {
    let mut bytes = cd_bytes(0, 0, b"a", b"", b"");
    bytes.extend_from_slice(&cd_bytes(0, 0, b"b", b"", b""));
    bytes.extend_from_slice(b"PK\x05\x06 and more bytes that are no entry at all ..............");
    let mut source = ByteSource::new(bytes.clone());
    let error = ZipCDEntry::all_from_eocd(&mut source, &eocd_for(0, 3)).unwrap_err();
    assert_eq!(
        invalid_reason(error),
        "central directory signature (PK\\x01\\x02) was not found at the expected position"
    );
    assert_eq!(source.into_inner(), bytes);
}

#[test]
fn missing_entry_at_the_end_is_a_read_failure() {
    let bytes = cd_bytes(0, 0, b"only", b"", b"");
    let mut source = ByteSource::new(bytes);
    assert!(matches!(
        ZipCDEntry::all_from_eocd(&mut source, &eocd_for(0, 2)),
        Err(ZipReadError::IOError(IoError::UnexpectedEof))
    ));
    let mut source = ByteSource::new(vec![0x50, 0x4b, 0x01]);
    assert!(matches!(
        ZipCDEntry::read_and_generate_from_signature(&mut source),
        Err(ZipReadError::IOError(IoError::UnexpectedEof))
    ));
    let mut source = ByteSource::new(Vec::new());
    assert!(matches!(
        ZipCDEntry::all_from_eocd(&mut source, &eocd_for(12, 1)),
        Err(ZipReadError::IOError(IoError::UnexpectedEof))
    ));
}

#[test]
fn entry_cut_within_the_fixed_fields_is_a_read_failure() {
    let mut bytes = cd_bytes(0, 0, b"name", b"", b"");
    bytes.truncate(45);
    let mut source = ByteSource::new(bytes);
    assert!(matches!(
        ZipCDEntry::read_and_generate_from_signature(&mut source),
        Err(ZipReadError::IOError(IoError::UnexpectedEof))
    ));
    let mut source = ByteSource::new(vec![0x50, 0x4b, 0x01, 0x02]);
    assert!(matches!(
        ZipCDEntry::read_and_generate_from_signature(&mut source),
        Err(ZipReadError::IOError(IoError::UnexpectedEof))
    ));
}

#[test]
fn entry_cut_within_a_region_is_invalid() {
    let whole = cd_bytes(0, 0, b"name", b"extra", b"comment");
    assert_eq!(whole.len(), 46 + 4 + 5 + 7);

    let mut source = ByteSource::new(whole[..46 + 3].to_vec());
    assert_eq!(
        invalid_reason(ZipCDEntry::read_and_generate_from_signature(&mut source).unwrap_err()),
        "file name of a central directory entry is shorter than its declared length"
    );
    let mut source = ByteSource::new(whole[..46].to_vec());
    assert_eq!(
        invalid_reason(ZipCDEntry::read_and_generate_from_signature(&mut source).unwrap_err()),
        "file name of a central directory entry is shorter than its declared length"
    );
    let mut source = ByteSource::new(whole[..46 + 4 + 4].to_vec());
    assert_eq!(
        invalid_reason(ZipCDEntry::read_and_generate_from_signature(&mut source).unwrap_err()),
        "extra field of a central directory entry is shorter than its declared length"
    );
    let mut source = ByteSource::new(whole[..46 + 4 + 5].to_vec());
    assert_eq!(
        invalid_reason(ZipCDEntry::read_and_generate_from_signature(&mut source).unwrap_err()),
        "file comment of a central directory entry is shorter than its declared length"
    );
    let mut source = ByteSource::new(whole[..whole.len() - 1].to_vec());
    assert_eq!(
        invalid_reason(ZipCDEntry::read_and_generate_from_signature(&mut source).unwrap_err()),
        "file comment of a central directory entry is shorter than its declared length"
    );
    let mut source = ByteSource::new(whole);
    assert!(ZipCDEntry::read_and_generate_from_signature(&mut source).is_ok());
}

#[test]
fn other_signature_is_no_entry() {
    let mut bytes = cd_bytes(0, 0, b"name", b"", b"");
    bytes[2] = 0x03;
    bytes[3] = 0x04;
    let mut source = ByteSource::new(bytes);
    assert_eq!(
        invalid_reason(ZipCDEntry::read_and_generate_from_signature(&mut source).unwrap_err()),
        "central directory signature (PK\\x01\\x02) was not found at the expected position"
    );
    let mut source = ByteSource::new(vec![0x50, 0x4b, 0x01, 0x03, 0, 0]);
    assert!(matches!(
        ZipCDEntry::read_and_generate_from_signature(&mut source),
        Err(ZipReadError::InvalidZipArchive { .. })
    ));
}
