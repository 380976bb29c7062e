//! Pending work: a queued, not-yet-processed archive entry, and how it is
//! turned into a finished record.
//!
//! Processing a regular entry runs its bytes through a CRC-32 accumulator
//! and, for the deflate type, through the external compressor; both are
//! consumed as black-box transforms of the input bytes.

use std::io::Read;

use vstd::prelude::*;
use vstd::string::StrSliceExecFns;
use vstd::utf8::encode_utf8;

use crate::CompressionType;
use crate::ZipError;
use crate::extra_field::ExtraFields;
use crate::file::ZipFile;
use crate::file::spec_is_directory_record;
use crate::level::CompressionLevel;

verus! {

/// The CRC-32 checksum of a byte sequence, as the external checksum
/// algorithm defines it.
pub uninterp spec fn crc32_of(data: Seq<u8>) -> u32;

/// The raw deflate stream the external compressor produces for the given
/// bytes at the given level.
pub uninterp spec fn deflate_of(data: Seq<u8>, level: u8) -> Seq<u8>;

/// Relies on `flate2::Crc` (backed by the crc32fast hasher): updating an
/// empty accumulator with the whole buffer and taking `sum` yields the
/// CRC-32 checksum of the bytes, a function of the bytes alone.
#[verifier::external_body]
fn crc32_bytes(data: &[u8]) -> (r: u32)
    ensures
        r == crc32_of(data@),
{
    let mut crc = flate2::Crc::new();
    crc.update(data);
    crc.sum()
}

/// Relies on `flate2::read::DeflateEncoder` over an in-memory slice:
/// reading it to the end yields the raw deflate stream for the input at the
/// given level, a function of the bytes and the level alone. Reading from a
/// byte slice cannot fail, so neither can the encoder wrapped around it.
#[verifier::external_body]
fn deflate_bytes(data: &[u8], level: u8) -> (r: Vec<u8>)
    requires
        level <= 9,
    ensures
        r@ == deflate_of(data@, level),
{
    let mut encoder = flate2::read::DeflateEncoder::new(
        data,
        flate2::Compression::new(level as u32),
    );
    let mut out = Vec::new();
    encoder
        .read_to_end(&mut out)
        .expect("reading from a byte slice does not fail");
    out
}

/// The payload an entry's record will carry: the input itself for Stored,
/// the compressor's output for Deflate.
pub open spec fn spec_payload_of(data: Seq<u8>, level: u8, ct: CompressionType) -> Seq<u8> {
    match ct {
        CompressionType::Stored => data,
        CompressionType::Deflate => deflate_of(data, level),
    }
}

/// Both the input and the resulting payload fit the 32-bit size fields.
pub open spec fn spec_data_ok(data: Seq<u8>, level: u8, ct: CompressionType) -> bool {
    data.len() <= 0xFFFFFFFF && spec_payload_of(data, level, ct).len() <= 0xFFFFFFFF
}

/// Where a queued entry's bytes come from.
#[derive(Debug)]
pub enum ZipJobOrigin {
    /// A directory: no data, always Stored.
    Directory {
        /// Extra metadata blocks for the directory entry.
        extra_fields: ExtraFields,
        /// 16-bit external attributes for the directory entry.
        external_attributes: u16,
    },
    /// Bytes already in memory.
    RawData {
        /// The uncompressed entry data.
        data: Vec<u8>,
        /// Compressor effort, used only for the Deflate type.
        compression_level: CompressionLevel,
        /// How the payload will be encoded.
        compression_type: CompressionType,
        /// Extra metadata blocks for the entry.
        extra_fields: ExtraFields,
        /// 16-bit external attributes for the entry.
        external_attributes: u16,
    },
}

/// A queued, not-yet-processed archive entry.
#[derive(Debug)]
pub struct ZipJob {
    /// Where the entry's bytes come from and how to encode them.
    pub data_origin: ZipJobOrigin,
    /// The entry's name inside the archive, forward-slash separated.
    pub archive_path: String,
    /// Optional comment for the entry.
    pub file_comment: Option<String>,
}

impl ZipJob {
    /// Keep the low 16 bits of a platform attribute word.
    pub fn convert_attrs(attrs: u32) -> (r: u16)
        ensures
            r == attrs & 0xFFFF,
    {
        proof {
            assert(attrs & 0xFFFF <= 0xFFFF) by (bit_vector);
        }
        (attrs & 0xFFFF) as u16
    }

    /// Processing this job succeeds: its data and resulting payload fit the
    /// 32-bit size fields. Directories always succeed.
    pub open spec fn spec_ok(self) -> bool {
        match self.data_origin {
            ZipJobOrigin::Directory { .. } => true,
            ZipJobOrigin::RawData { data, compression_level, compression_type, .. } =>
                spec_data_ok(data@, compression_level.spec_value(), compression_type),
        }
    }

    /// The record that processing this job produces: for a directory, a
    /// directory record; for raw data, a record carrying the job's metadata,
    /// the CRC-32 of the input, its length, and the payload the compression
    /// type calls for.
    pub open spec fn spec_record_of(self, f: ZipFile) -> bool {
        match self.data_origin {
            ZipJobOrigin::Directory { extra_fields, external_attributes } =>
                spec_is_directory_record(
                    f,
                    self.archive_path@,
                    extra_fields.values@,
                    external_attributes,
                    self.file_comment,
                ),
            ZipJobOrigin::RawData {
                data,
                compression_level,
                compression_type,
                extra_fields,
                external_attributes,
            } => {
                &&& f.compression_type == compression_type
                &&& f.crc == crc32_of(data@)
                &&& f.uncompressed_size == data@.len()
                &&& f.data@ == spec_payload_of(
                    data@,
                    compression_level.spec_value(),
                    compression_type,
                )
                &&& f.filename@ == encode_utf8(self.archive_path@)
                &&& f.external_file_attributes == (external_attributes as u32) << 16
                &&& f.extra_fields.values@ == extra_fields.values@
                &&& f.file_comment == self.file_comment
            },
        }
    }

    /// Process the job into a finished record: checksum and encode the
    /// data. Fails exactly when the input or the resulting payload does not
    /// fit the 32-bit size fields.
    pub fn into_file(self) -> (r: Result<ZipFile, ZipError>)
        ensures
            (r is Ok) <==> self.spec_ok(),
            r matches Ok(f) ==> self.spec_record_of(f),
            r matches Err(e) ==> e == ZipError::EntryDataTooLarge,
    {
        match self.data_origin {
            ZipJobOrigin::Directory { extra_fields, external_attributes } => Ok(
                ZipFile::directory(
                    self.archive_path,
                    extra_fields,
                    external_attributes,
                    self.file_comment,
                ),
            ),
            ZipJobOrigin::RawData {
                data,
                compression_level,
                compression_type,
                extra_fields,
                external_attributes,
            } => gen_file(
                data,
                self.archive_path,
                external_attributes,
                compression_level,
                compression_type,
                extra_fields,
                self.file_comment,
            ),
        }
    }
}

/// For the Stored compression type the record's payload is the input
/// itself: the compressed and uncompressed sizes agree, and the stored
/// checksum is the CRC-32 of the payload as written.
pub proof fn lemma_stored_record_roundtrip(job: ZipJob, f: ZipFile)
    requires
        job.data_origin matches ZipJobOrigin::RawData { compression_type, .. }
            && compression_type == CompressionType::Stored,
        job.spec_record_of(f),
    ensures
        f.data@.len() == f.uncompressed_size,
        f.crc == crc32_of(f.data@),
{
}

/// Checksum and encode in-memory bytes into a finished record.
fn gen_file(
    data: Vec<u8>,
    archive_path: String,
    attributes: u16,
    compression_level: CompressionLevel,
    compression_type: CompressionType,
    extra_fields: ExtraFields,
    file_comment: Option<String>,
) -> (r: Result<ZipFile, ZipError>)
    ensures
        (r is Ok) <==> spec_data_ok(data@, compression_level.spec_value(), compression_type),
        r matches Ok(f) ==> {
            &&& f.compression_type == compression_type
            &&& f.crc == crc32_of(data@)
            &&& f.uncompressed_size == data@.len()
            &&& f.data@ == spec_payload_of(data@, compression_level.spec_value(), compression_type)
            &&& f.filename@ == encode_utf8(archive_path@)
            &&& f.external_file_attributes == (attributes as u32) << 16
            &&& f.extra_fields.values@ == extra_fields.values@
            &&& f.file_comment == file_comment
        },
        r matches Err(e) ==> e == ZipError::EntryDataTooLarge,
{
    if data.len() as u64 > 0xFFFFFFFFu64 {
        return Err(ZipError::EntryDataTooLarge);
    }
    let crc = crc32_bytes(data.as_slice());
    let uncompressed_size: u32 = data.len() as u32;
    let payload: Vec<u8> = match compression_type {
        CompressionType::Stored => data,
        CompressionType::Deflate => deflate_bytes(data.as_slice(), compression_level.value()),
    };
    if payload.len() as u64 > 0xFFFFFFFFu64 {
        return Err(ZipError::EntryDataTooLarge);
    }
    let filename = archive_path.as_str().as_bytes_vec();
    Ok(
        ZipFile {
            compression_type,
            crc,
            uncompressed_size,
            filename,
            data: payload,
            external_file_attributes: (attributes as u32) << 16,
            extra_fields,
            file_comment,
        },
    )
}

} // verus!
