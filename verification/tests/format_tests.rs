use mtzip::ZipArchive;
use mtzip::ZipError;
use mtzip::CompressionType;
use mtzip::extra_field::ExtraField;
use mtzip::extra_field::ExtraFields;
use mtzip::file::ZipFile;

#[test]
fn ntfs_field_encoding() {
    let f = ExtraField::Ntfs { mtime: 1, atime: 2, ctime: 3 };
    let mut local: Vec<u8> = Vec::new();
    f.write(&mut local, false);
    let mut expected: Vec<u8> = Vec::new();
    expected.extend_from_slice(&0x000au16.to_le_bytes());
    expected.extend_from_slice(&32u16.to_le_bytes());
    expected.extend_from_slice(&0u32.to_le_bytes());
    expected.extend_from_slice(&1u16.to_le_bytes());
    expected.extend_from_slice(&24u16.to_le_bytes());
    expected.extend_from_slice(&1u64.to_le_bytes());
    expected.extend_from_slice(&2u64.to_le_bytes());
    expected.extend_from_slice(&3u64.to_le_bytes());
    assert_eq!(local, expected);
    // The NTFS block is identical in central placement.
    let mut central: Vec<u8> = Vec::new();
    f.write(&mut central, true);
    assert_eq!(central, expected);
}

#[test]
fn unix_timestamp_field_shrinks_in_central_placement() {
    let f = ExtraField::UnixExtendedTimestamp {
        mod_time: Some(0x01020304),
        ac_time: Some(0x0a0b0c0d),
        cr_time: Some(0x11121314),
    };
    let mut local: Vec<u8> = Vec::new();
    f.write(&mut local, false);
    assert_eq!(
        local,
        vec![
            0x55, 0x54, 13, 0, 7, 0x04, 0x03, 0x02, 0x01, 0x0d, 0x0c, 0x0b, 0x0a, 0x14, 0x13,
            0x12, 0x11,
        ]
    );
    // Central placement keeps the flags but only the modification time.
    let mut central: Vec<u8> = Vec::new();
    f.write(&mut central, true);
    assert_eq!(central, vec![0x55, 0x54, 5, 0, 7, 0x04, 0x03, 0x02, 0x01]);
}

#[test]
fn unix_timestamp_negative_time_two_complement() {
    let f = ExtraField::UnixExtendedTimestamp { mod_time: Some(-1), ac_time: None, cr_time: None };
    let mut local: Vec<u8> = Vec::new();
    f.write(&mut local, false);
    assert_eq!(local, vec![0x55, 0x54, 5, 0, 1, 0xff, 0xff, 0xff, 0xff]);
}

#[test]
fn unix_attrs_field_encoding() {
    let f = ExtraField::UnixAttrs { uid: 1000, gid: 1001 };
    let mut out: Vec<u8> = Vec::new();
    f.write(&mut out, false);
    assert_eq!(
        out,
        vec![0x75, 0x78, 11, 0, 1, 4, 0xe8, 0x03, 0x00, 0x00, 4, 0xe9, 0x03, 0x00, 0x00]
    );
}

#[test]
fn extra_fields_data_length_by_placement() {
    let fields = ExtraFields::new(vec![
        ExtraField::UnixExtendedTimestamp {
            mod_time: Some(1),
            ac_time: Some(2),
            cr_time: Some(3),
        },
        ExtraField::UnixAttrs { uid: 0, gid: 0 },
    ]);
    assert_eq!(fields.data_length(false), 4 + 13 + 4 + 11);
    assert_eq!(fields.data_length(true), 4 + 5 + 4 + 11);
}

#[test]
fn directory_record_is_stored_empty_and_slash_terminated() {
    let rec = ZipFile::directory("docs".to_string(), ExtraFields::default(), 0o040755, None);
    assert_eq!(rec.compression_type, CompressionType::Stored);
    assert_eq!(rec.crc, 0);
    assert_eq!(rec.uncompressed_size, 0);
    assert!(rec.data.is_empty());
    assert_eq!(rec.filename, b"docs/".to_vec());
    assert_eq!(rec.external_file_attributes, 0o040755u32 << 16);
}

#[test]
fn directory_name_keeps_existing_separator() {
    let rec = ZipFile::directory("docs/".to_string(), ExtraFields::default(), 0, None);
    assert_eq!(rec.filename, b"docs/".to_vec());
    let rec = ZipFile::directory("docs\\".to_string(), ExtraFields::default(), 0, None);
    assert_eq!(rec.filename, b"docs\\".to_vec());
    let rec = ZipFile::directory(String::new(), ExtraFields::default(), 0, None);
    assert_eq!(rec.filename, b"/".to_vec());
}

#[test]
fn write_rejects_overlong_name() {
    let mut zipper = ZipArchive::new();
    let long_name: String = "a".repeat(70000);
    zipper.add_file_from_memory(b"x".to_vec(), long_name, None, None, None, None);
    zipper.compress().unwrap();
    let mut out: Vec<u8> = Vec::new();
    assert_eq!(zipper.write(&mut out), Err(ZipError::NameTooLong));
    assert!(out.is_empty());
}

#[test]
fn write_rejects_too_many_entries() {
    let mut zipper = ZipArchive::new();
    for _ in 0..65536 {
        zipper.add_directory("d".to_string(), None);
    }
    let mut out: Vec<u8> = Vec::new();
    assert_eq!(zipper.write(&mut out), Err(ZipError::TooManyEntries));
    assert!(out.is_empty());
}

#[test]
fn write_rejects_overlong_extra_fields() {
    let fields = vec![ExtraField::UnixAttrs { uid: 0, gid: 0 }; 4400];
    let mut zipper = ZipArchive::new();
    zipper.add_directory_with_metadata("d".to_string(), ExtraFields::new(fields), None);
    let mut out: Vec<u8> = Vec::new();
    assert_eq!(zipper.write(&mut out), Err(ZipError::ExtraFieldsTooLong));
    assert!(out.is_empty());
}

#[test]
fn write_rejects_overlong_comment() {
    let rec = ZipFile::directory(
        "d".to_string(),
        ExtraFields::default(),
        0,
        Some("x".repeat(70000)),
    );
    let mut zipper = ZipArchive::new();
    zipper.push_file(rec);
    let mut out: Vec<u8> = Vec::new();
    assert_eq!(zipper.write(&mut out), Err(ZipError::CommentTooLong));
    assert!(out.is_empty());
}

fn le16(b: &[u8], off: usize) -> u16 {
    u16::from_le_bytes([b[off], b[off + 1]])
}

fn le32(b: &[u8], off: usize) -> u32 {
    u32::from_le_bytes([b[off], b[off + 1], b[off + 2], b[off + 3]])
}

#[test]
fn archive_extra_field_lengths_differ_by_placement() {
    let fields = ExtraFields::new(vec![ExtraField::UnixExtendedTimestamp {
        mod_time: Some(1_600_000_000),
        ac_time: Some(1_600_000_001),
        cr_time: Some(1_600_000_002),
    }]);
    let mut zipper = ZipArchive::new();
    zipper.add_file_from_memory(
        b"data".to_vec(),
        "t.bin".to_string(),
        None,
        Some(CompressionType::Stored),
        None,
        Some(fields),
    );
    let mut out: Vec<u8> = Vec::new();
    zipper.write(&mut out).unwrap();
    // Local header at offset 0: extra-field length counts all three times.
    assert_eq!(le32(&out, 0), 0x04034B50);
    assert_eq!(le16(&out, 28), 4 + 13);
    // Central entry: only the modification time is kept.
    let cd_offset = le32(&out, out.len() - 22 + 16) as usize;
    assert_eq!(le32(&out, cd_offset), 0x02014B50);
    assert_eq!(le16(&out, cd_offset + 30), 4 + 5);
}

#[test]
fn entry_comment_is_written_to_central_directory() {
    let rec = ZipFile::directory(
        "notes".to_string(),
        ExtraFields::default(),
        0o040755,
        Some("hi".to_string()),
    );
    let mut zipper = ZipArchive::new();
    zipper.push_file(rec);
    let mut out: Vec<u8> = Vec::new();
    zipper.write(&mut out).unwrap();
    let cd_offset = le32(&out, out.len() - 22 + 16) as usize;
    assert_eq!(le32(&out, cd_offset), 0x02014B50);
    let name_len = le16(&out, cd_offset + 28) as usize;
    let extra_len = le16(&out, cd_offset + 30) as usize;
    let comment_len = le16(&out, cd_offset + 32) as usize;
    assert_eq!(name_len, 6);
    assert_eq!(comment_len, 2);
    let comment_start = cd_offset + 46 + name_len + extra_len;
    assert_eq!(&out[comment_start..comment_start + comment_len], b"hi");
}

#[test]
fn convert_attrs_keeps_low_half() {
    assert_eq!(mtzip::job::ZipJob::convert_attrs(0o100644), 0o100644 & 0xFFFF);
    assert_eq!(mtzip::job::ZipJob::convert_attrs(0xABCD_1234), 0x1234);
}

#[test]
fn failed_write_keeps_records() {
    let mut zipper = ZipArchive::new();
    let long_name: String = "a".repeat(70000);
    zipper.add_directory(long_name, None);
    zipper.add_directory("ok".to_string(), None);
    let mut out: Vec<u8> = Vec::new();
    assert!(zipper.write(&mut out).is_err());
    assert_eq!(zipper.file_count(), 2);
}
