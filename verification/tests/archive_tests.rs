use std::io::Read;

use mtzip::ZipArchive;
use mtzip::CompressionType;
use mtzip::level::CompressionLevel;

fn rd_u16(b: &[u8], off: usize) -> u16 {
    u16::from_le_bytes([b[off], b[off + 1]])
}

fn rd_u32(b: &[u8], off: usize) -> u32 {
    u32::from_le_bytes([b[off], b[off + 1], b[off + 2], b[off + 3]])
}

fn crc32(data: &[u8]) -> u32 {
    let mut crc = flate2::Crc::new();
    crc.update(data);
    crc.sum()
}

struct CentralEntry {
    name: Vec<u8>,
    method: u16,
    crc: u32,
    compressed_size: u32,
    uncompressed_size: u32,
    local_offset: u32,
}

struct Eocd {
    count_disk: u16,
    count_total: u16,
    cd_size: u32,
    cd_offset: u32,
}

fn parse_eocd(bytes: &[u8]) -> Eocd {
    assert!(bytes.len() >= 22);
    let off = bytes.len() - 22;
    assert_eq!(rd_u32(bytes, off), 0x06054B50, "EOCD signature");
    assert_eq!(rd_u16(bytes, off + 4), 0, "disk number");
    assert_eq!(rd_u16(bytes, off + 6), 0, "disk with central directory");
    assert_eq!(rd_u16(bytes, off + 20), 0, "archive comment length");
    Eocd {
        count_disk: rd_u16(bytes, off + 8),
        count_total: rd_u16(bytes, off + 10),
        cd_size: rd_u32(bytes, off + 12),
        cd_offset: rd_u32(bytes, off + 16),
    }
}

fn parse_central_entries(bytes: &[u8], eocd: &Eocd) -> Vec<CentralEntry> {
    let mut entries = Vec::new();
    let mut off = eocd.cd_offset as usize;
    let end = off + eocd.cd_size as usize;
    while off < end {
        assert_eq!(rd_u32(bytes, off), 0x02014B50, "central entry signature");
        // UTF-8 flag (bit 11) is always set; legacy time and date stay zero.
        assert_eq!(rd_u16(bytes, off + 8), 1 << 11, "general purpose flags");
        assert_eq!(rd_u16(bytes, off + 12), 0, "legacy time");
        assert_eq!(rd_u16(bytes, off + 14), 0, "legacy date");
        let name_len = rd_u16(bytes, off + 28) as usize;
        let extra_len = rd_u16(bytes, off + 30) as usize;
        let comment_len = rd_u16(bytes, off + 32) as usize;
        let entry = CentralEntry {
            method: rd_u16(bytes, off + 10),
            crc: rd_u32(bytes, off + 16),
            compressed_size: rd_u32(bytes, off + 20),
            uncompressed_size: rd_u32(bytes, off + 24),
            local_offset: rd_u32(bytes, off + 42),
            name: bytes[off + 46..off + 46 + name_len].to_vec(),
        };
        entries.push(entry);
        off += 46 + name_len + extra_len + comment_len;
    }
    assert_eq!(off, end, "central directory size matches its entries");
    entries
}

/// The bytes of one entry's payload, located through its local file header.
fn local_payload(bytes: &[u8], entry: &CentralEntry) -> Vec<u8> {
    let off = entry.local_offset as usize;
    assert_eq!(rd_u32(bytes, off), 0x04034B50, "local header signature");
    assert_eq!(rd_u16(bytes, off + 4), 20, "version needed");
    assert_eq!(rd_u16(bytes, off + 6), 1 << 11, "general purpose flags");
    assert_eq!(rd_u16(bytes, off + 8), entry.method, "method agrees with central");
    assert_eq!(rd_u32(bytes, off + 14), entry.crc, "crc agrees with central");
    assert_eq!(rd_u32(bytes, off + 18), entry.compressed_size);
    assert_eq!(rd_u32(bytes, off + 22), entry.uncompressed_size);
    let name_len = rd_u16(bytes, off + 26) as usize;
    let extra_len = rd_u16(bytes, off + 28) as usize;
    assert_eq!(&bytes[off + 30..off + 30 + name_len], &entry.name[..]);
    let start = off + 30 + name_len + extra_len;
    bytes[start..start + entry.compressed_size as usize].to_vec()
}

#[test]
fn empty_archive_is_bare_eocd() {
    let mut zipper = ZipArchive::new();
    let mut out: Vec<u8> = Vec::new();
    zipper.write(&mut out).unwrap();
    assert_eq!(out.len(), 22);
    let eocd = parse_eocd(&out);
    assert_eq!(eocd.count_disk, 0);
    assert_eq!(eocd.count_total, 0);
    assert_eq!(eocd.cd_size, 0);
    assert_eq!(eocd.cd_offset, 0);
}

#[test]
fn eocd_describes_central_directory_span() {
    let mut zipper = ZipArchive::new();
    zipper.add_directory("docs".to_string(), None);
    zipper.add_file_from_memory(b"alpha".to_vec(), "a.txt".to_string(), None, None, None, None);
    zipper.add_file_from_memory(
        b"beta".to_vec(),
        "b.txt".to_string(),
        None,
        Some(CompressionType::Stored),
        None,
        None,
    );
    let mut out: Vec<u8> = Vec::new();
    zipper.write(&mut out).unwrap();
    let eocd = parse_eocd(&out);
    assert_eq!(eocd.count_disk, 3);
    assert_eq!(eocd.count_total, 3);
    // The size and offset fields delimit exactly the written central
    // directory: it ends where the EOCD starts.
    assert_eq!(eocd.cd_offset as usize + eocd.cd_size as usize, out.len() - 22);
    assert_eq!(rd_u32(&out, eocd.cd_offset as usize), 0x02014B50);
    let entries = parse_central_entries(&out, &eocd);
    assert_eq!(entries.len(), 3);
    // Every recorded offset points at a real local header.
    for entry in &entries {
        assert_eq!(rd_u32(&out, entry.local_offset as usize), 0x04034B50);
    }
}

#[test]
fn hello_world_scenario() {
    let mut zipper = ZipArchive::new();
    zipper.add_file_from_memory(
        b"Hello, world!".to_vec(),
        "hello.txt".to_string(),
        Some(CompressionLevel::best()),
        Some(CompressionType::Deflate),
        None,
        None,
    );
    zipper.add_directory("docs".to_string(), None);
    let mut out: Vec<u8> = Vec::new();
    zipper.write(&mut out).unwrap();
    let eocd = parse_eocd(&out);
    assert_eq!(eocd.count_total, 2);
    let entries = parse_central_entries(&out, &eocd);
    assert_eq!(entries.len(), 2);
    let hello = entries.iter().find(|e| e.name == b"hello.txt").unwrap();
    assert_eq!(hello.uncompressed_size, 13);
    assert_eq!(hello.crc, crc32(b"Hello, world!"));
    assert_eq!(hello.crc, 0xEBE6C6E6);
    assert_eq!(hello.method, 8);
    let docs = entries.iter().find(|e| e.name == b"docs/").unwrap();
    assert_eq!(docs.uncompressed_size, 0);
    assert_eq!(docs.compressed_size, 0);
    assert_eq!(docs.crc, 0);
    assert_eq!(docs.method, 0);
}

#[test]
fn stored_roundtrip() {
    let data = b"The quick brown fox jumps over the lazy dog".to_vec();
    let mut zipper = ZipArchive::new();
    zipper.add_file_from_memory(
        data.clone(),
        "fox.txt".to_string(),
        None,
        Some(CompressionType::Stored),
        None,
        None,
    );
    let mut out: Vec<u8> = Vec::new();
    zipper.write(&mut out).unwrap();
    let eocd = parse_eocd(&out);
    let entries = parse_central_entries(&out, &eocd);
    let entry = &entries[0];
    assert_eq!(entry.method, 0);
    assert_eq!(entry.compressed_size, entry.uncompressed_size);
    assert_eq!(entry.crc, crc32(&data));
    assert_eq!(entry.crc, 0x414FA339);
    assert_eq!(local_payload(&out, entry), data);
}

#[test]
fn deflate_roundtrip() {
    let data: Vec<u8> = b"The quick brown fox jumps over the lazy dog. ".repeat(20);
    let mut zipper = ZipArchive::new();
    zipper.add_file_from_memory(
        data.clone(),
        "fox.txt".to_string(),
        Some(CompressionLevel::best()),
        Some(CompressionType::Deflate),
        None,
        None,
    );
    let mut out: Vec<u8> = Vec::new();
    zipper.write(&mut out).unwrap();
    let eocd = parse_eocd(&out);
    let entries = parse_central_entries(&out, &eocd);
    let entry = &entries[0];
    assert_eq!(entry.method, 8);
    assert_eq!(entry.uncompressed_size, data.len() as u32);
    assert_eq!(entry.crc, crc32(&data));
    let payload = local_payload(&out, entry);
    // Best-effort deflate of repetitive text must actually shrink it.
    assert!(payload.len() < data.len());
    let mut decoder = flate2::read::DeflateDecoder::new(&payload[..]);
    let mut restored = Vec::new();
    decoder.read_to_end(&mut restored).unwrap();
    assert_eq!(restored, data);
}

#[test]
fn compress_twice_is_a_noop() {
    let mut zipper = ZipArchive::new();
    zipper.add_file_from_memory(b"one".to_vec(), "one.txt".to_string(), None, None, None, None);
    zipper.add_file_from_memory(b"two".to_vec(), "two.txt".to_string(), None, None, None, None);
    zipper.compress().unwrap();
    assert_eq!(zipper.file_count(), 2);
    assert_eq!(zipper.job_count(), 0);
    zipper.compress().unwrap();
    assert_eq!(zipper.file_count(), 2);
    assert_eq!(zipper.job_count(), 0);
}

#[test]
fn thousand_files_no_loss_no_duplication() {
    let mut zipper = ZipArchive::new();
    for i in 0..1000 {
        zipper.add_file_from_memory(
            format!("contents of file number {}", i).into_bytes(),
            format!("files/{}.txt", i),
            Some(CompressionLevel::fast()),
            None,
            None,
            None,
        );
    }
    assert_eq!(zipper.job_count(), 1000);
    zipper.compress().unwrap();
    assert_eq!(zipper.file_count(), 1000);
    assert_eq!(zipper.job_count(), 0);
    let mut out: Vec<u8> = Vec::new();
    zipper.write(&mut out).unwrap();
    let eocd = parse_eocd(&out);
    assert_eq!(eocd.count_disk, 1000);
    assert_eq!(eocd.count_total, 1000);
    let entries = parse_central_entries(&out, &eocd);
    assert_eq!(entries.len(), 1000);
    // Every registered file is present exactly once, and every recorded
    // offset points at a real local header.
    let mut names: Vec<Vec<u8>> = entries.iter().map(|e| e.name.clone()).collect();
    names.sort();
    names.dedup();
    assert_eq!(names.len(), 1000);
    for entry in &entries {
        assert_eq!(rd_u32(&out, entry.local_offset as usize), 0x04034B50);
    }
}

#[test]
fn write_consumes_records() {
    let mut zipper = ZipArchive::new();
    zipper.add_directory("d".to_string(), None);
    let mut out: Vec<u8> = Vec::new();
    zipper.write(&mut out).unwrap();
    assert_eq!(zipper.file_count(), 0);
    let mut out2: Vec<u8> = Vec::new();
    zipper.write(&mut out2).unwrap();
    assert_eq!(out2.len(), 22);
}

#[test]
fn writer_contents_are_appended() {
    let mut zipper = ZipArchive::new();
    zipper.add_directory("d".to_string(), None);
    let mut out: Vec<u8> = vec![0xAA, 0xBB];
    zipper.write(&mut out).unwrap();
    assert_eq!(&out[..2], &[0xAA, 0xBB]);
    assert_eq!(rd_u32(&out, 2), 0x04034B50);
}
