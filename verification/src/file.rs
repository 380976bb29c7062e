//! A fully processed archive entry and its byte-exact header encodings.
//!
//! Each entry is written twice: a local file header followed by the payload,
//! and later a central directory entry that repeats the metadata and points
//! back at the local header's offset.

use vstd::prelude::*;
use vstd::bytes::*;
use vstd::string::StrSliceExecFns;
use vstd::utf8::encode_utf8;

use crate::CompressionType;
use crate::ZipError;
use crate::extra_field::ExtraField;
use crate::extra_field::ExtraFields;
use crate::extra_field::push_u16_le;
use crate::extra_field::push_u32_le;
use crate::extra_field::spec_fields_bytes;
use crate::extra_field::lemma_fields_bytes_len;

verus! {

/// Signature opening every local file header.
pub const LOCAL_FILE_HEADER_SIGNATURE: u32 = 0x04034B50;

/// Signature opening every central directory entry.
pub const CENTRAL_FILE_HEADER_SIGNATURE: u32 = 0x02014B50;

/// ZIP specification version 2.0, enough for deflate.
pub const VERSION_NEEDED_TO_EXTRACT: u16 = 20;

/// Host system UNIX (id 3) in the high byte, specification version 6.2 in
/// the low byte: `3 * 256 + 62`.
pub const VERSION_MADE_BY: u16 = 0x033E;

/// Bit 11 set: file names and comments are UTF-8.
pub const GENERAL_PURPOSE_BIT_FLAG: u16 = 0x0800;

/// Default permissions for a regular file: `-rw-r--r--`.
pub const DEFAULT_UNIX_FILE_ATTRS: u16 = 0o100644;

/// Default permissions for a directory: `drwxr-xr-x`.
pub const DEFAULT_UNIX_DIR_ATTRS: u16 = 0o040755;

/// A processed archive entry: metadata plus the (possibly compressed)
/// payload, ready to be serialized.
#[derive(Debug, Clone, PartialEq, Eq)]
pub struct ZipFile {
    /// How the payload is encoded.
    pub compression_type: CompressionType,
    /// CRC-32 checksum of the uncompressed data.
    pub crc: u32,
    /// Size of the uncompressed data.
    pub uncompressed_size: u32,
    /// Entry name, UTF-8 bytes, forward-slash separated.
    pub filename: Vec<u8>,
    /// The payload as it will appear in the archive.
    pub data: Vec<u8>,
    /// External attributes: a 16-bit permission word shifted into the high
    /// half.
    pub external_file_attributes: u32,
    /// Extra metadata blocks.
    pub extra_fields: ExtraFields,
    /// Optional per-entry comment, written into the central directory.
    pub file_comment: Option<String>,
}

/// A directory name as stored: coerced to end with a path separator.
pub open spec fn spec_dir_name(b: Seq<u8>) -> Seq<u8> {
    if b.len() > 0 && (b.last() == 47u8 || b.last() == 92u8) {
        b
    } else {
        b.push(47u8)
    }
}

/// What a directory record holds: Stored type, empty payload, zero CRC and
/// sizes, a name ending in a path separator, and the packed attributes.
pub open spec fn spec_is_directory_record(
    f: ZipFile,
    name: Seq<char>,
    extra: Seq<ExtraField>,
    attrs: u16,
    comment: Option<String>,
) -> bool {
    &&& f.compression_type == CompressionType::Stored
    &&& f.crc == 0
    &&& f.uncompressed_size == 0
    &&& f.data@ == Seq::<u8>::empty()
    &&& f.filename@ == spec_dir_name(encode_utf8(name))
    &&& f.external_file_attributes == (attrs as u32) << 16
    &&& f.extra_fields.values@ == extra
    &&& f.file_comment == comment
}

impl ZipFile {
    /// The comment bytes written into the central directory entry.
    pub open spec fn spec_comment_bytes(self) -> Seq<u8> {
        match self.file_comment {
            Some(c) => encode_utf8(c@),
            None => Seq::empty(),
        }
    }

    /// Every variable-length part of the entry fits its header length field:
    /// the name, the extra fields in both placements, the comment (16 bits
    /// each) and the payload (32 bits).
    pub open spec fn spec_fits(self) -> bool {
        &&& self.filename@.len() <= 0xFFFF
        &&& self.extra_fields.spec_fits(false)
        &&& self.extra_fields.spec_fits(true)
        &&& self.data@.len() <= 0xFFFFFFFF
        &&& self.spec_comment_bytes().len() <= 0xFFFF
    }

    /// The local file header followed by the payload.
    pub open spec fn spec_local_bytes(self) -> Seq<u8> {
        spec_u32_to_le_bytes(LOCAL_FILE_HEADER_SIGNATURE) + spec_u16_to_le_bytes(
            VERSION_NEEDED_TO_EXTRACT,
        ) + spec_u16_to_le_bytes(GENERAL_PURPOSE_BIT_FLAG) + spec_u16_to_le_bytes(
            self.compression_type.spec_code(),
        ) + spec_u16_to_le_bytes(0) + spec_u16_to_le_bytes(0) + spec_u32_to_le_bytes(self.crc)
            + spec_u32_to_le_bytes(self.data@.len() as u32) + spec_u32_to_le_bytes(
            self.uncompressed_size,
        ) + spec_u16_to_le_bytes(self.filename@.len() as u16) + spec_u16_to_le_bytes(
            (self.extra_fields.spec_data_length(false)) as u16,
        ) + self.filename@ + spec_fields_bytes(self.extra_fields.values@, false) + self.data@
    }

    /// Length of the local header plus payload: 30 fixed bytes, the name,
    /// the local extra fields and the payload.
    pub open spec fn spec_local_len(self) -> int {
        30 + self.filename@.len() + self.extra_fields.spec_data_length(false) + self.data@.len()
    }

    /// The 46 fixed-size bytes that open a central directory entry.
    pub open spec fn spec_central_fixed(self, local_header_offset: u32) -> Seq<u8> {
        spec_u32_to_le_bytes(CENTRAL_FILE_HEADER_SIGNATURE) + spec_u16_to_le_bytes(VERSION_MADE_BY)
            + spec_u16_to_le_bytes(VERSION_NEEDED_TO_EXTRACT) + spec_u16_to_le_bytes(
            GENERAL_PURPOSE_BIT_FLAG,
        ) + spec_u16_to_le_bytes(self.compression_type.spec_code()) + spec_u16_to_le_bytes(0)
            + spec_u16_to_le_bytes(0) + spec_u32_to_le_bytes(self.crc) + spec_u32_to_le_bytes(
            self.data@.len() as u32,
        ) + spec_u32_to_le_bytes(self.uncompressed_size) + spec_u16_to_le_bytes(
            self.filename@.len() as u16,
        ) + spec_u16_to_le_bytes((self.extra_fields.spec_data_length(true)) as u16)
            + spec_u16_to_le_bytes(self.spec_comment_bytes().len() as u16) + spec_u16_to_le_bytes(0)
            + spec_u16_to_le_bytes(0) + spec_u32_to_le_bytes(self.external_file_attributes)
            + spec_u32_to_le_bytes(local_header_offset)
    }

    /// The central directory entry, pointing back at the local header: the
    /// fixed fields, then the name, the central extra fields and the comment.
    pub open spec fn spec_central_bytes(self, local_header_offset: u32) -> Seq<u8> {
        self.spec_central_fixed(local_header_offset) + self.filename@ + spec_fields_bytes(
            self.extra_fields.values@,
            true,
        ) + self.spec_comment_bytes()
    }

    /// Length of the central directory entry: 46 fixed bytes, the name, the
    /// central extra fields and the comment.
    pub open spec fn spec_central_len(self) -> int {
        46 + self.filename@.len() + self.extra_fields.spec_data_length(true)
            + self.spec_comment_bytes().len()
    }

    /// The local encoding is exactly `spec_local_len` bytes long.
    pub proof fn lemma_local_bytes_len(self)
        ensures
            self.spec_local_bytes().len() == self.spec_local_len(),
    {
        lemma_auto_spec_u16_to_from_le_bytes();
        lemma_auto_spec_u32_to_from_le_bytes();
        lemma_fields_bytes_len(self.extra_fields.values@, false);
    }

    /// The central encoding is exactly `spec_central_len` bytes long,
    /// whatever offset it points at.
    pub proof fn lemma_central_bytes_len(self, local_header_offset: u32)
        ensures
            self.spec_central_bytes(local_header_offset).len() == self.spec_central_len(),
    {
        lemma_auto_spec_u16_to_from_le_bytes();
        lemma_auto_spec_u32_to_from_le_bytes();
        lemma_fields_bytes_len(self.extra_fields.values@, true);
    }

    /// First capacity limit this entry breaks, if any: the name, the extra
    /// fields, the payload and the comment are checked in that order.
    pub fn capacity_error(&self) -> (r: Option<ZipError>)
        ensures
            (r is None) <==> self.spec_fits(),
            r == Some(ZipError::NameTooLong) ==> self.filename@.len() > 0xFFFF,
            r == Some(ZipError::ExtraFieldsTooLong) ==> !(self.extra_fields.spec_fits(false)
                && self.extra_fields.spec_fits(true)),
            r == Some(ZipError::EntryDataTooLarge) ==> self.data@.len() > 0xFFFFFFFF,
            r == Some(ZipError::CommentTooLong) ==> self.spec_comment_bytes().len() > 0xFFFF,
            r matches Some(e) ==> (e == ZipError::NameTooLong || e == ZipError::ExtraFieldsTooLong
                || e == ZipError::EntryDataTooLarge || e == ZipError::CommentTooLong),
    {
        if self.filename.len() > 0xFFFF {
            return Some(ZipError::NameTooLong);
        }
        if self.extra_fields.data_length_checked(false).is_none() {
            return Some(ZipError::ExtraFieldsTooLong);
        }
        if self.extra_fields.data_length_checked(true).is_none() {
            return Some(ZipError::ExtraFieldsTooLong);
        }
        if self.data.len() as u64 > 0xFFFFFFFFu64 {
            return Some(ZipError::EntryDataTooLarge);
        }
        let clen: usize = match &self.file_comment {
            Some(c) => c.as_str().as_bytes().len(),
            None => 0,
        };
        if clen > 0xFFFF {
            return Some(ZipError::CommentTooLong);
        }
        None
    }

    /// Length of the local header plus payload.
    pub fn local_len(&self) -> (r: u64)
        requires
            self.spec_fits(),
        ensures
            r == self.spec_local_len(),
    {
        30 + self.filename.len() as u64 + self.extra_fields.data_length(false) as u64
            + self.data.len() as u64
    }

    /// Length of the central directory entry.
    pub fn central_len(&self) -> (r: u64)
        requires
            self.spec_fits(),
        ensures
            r == self.spec_central_len(),
    {
        let clen: usize = match &self.file_comment {
            Some(c) => c.as_str().as_bytes().len(),
            None => 0,
        };
        46 + self.filename.len() as u64 + self.extra_fields.data_length(true) as u64 + clen as u64
    }

    /// Append the local file header immediately followed by the payload.
    pub fn write_local_file_header_and_data(&self, buf: &mut Vec<u8>)
        requires
            self.spec_fits(),
        ensures
            final(buf)@ == old(buf)@ + self.spec_local_bytes(),
    {
        push_u32_le(buf, LOCAL_FILE_HEADER_SIGNATURE);
        push_u16_le(buf, VERSION_NEEDED_TO_EXTRACT);
        push_u16_le(buf, GENERAL_PURPOSE_BIT_FLAG);
        push_u16_le(buf, self.compression_type.code());
        // The legacy DOS time and date fields stay zero; modification times
        // travel in the extra fields instead.
        push_u16_le(buf, 0);
        push_u16_le(buf, 0);
        push_u32_le(buf, self.crc);
        push_u32_le(buf, self.data.len() as u32);
        push_u32_le(buf, self.uncompressed_size);
        push_u16_le(buf, self.filename.len() as u16);
        push_u16_le(buf, self.extra_fields.data_length(false));
        buf.extend_from_slice(self.filename.as_slice());
        self.extra_fields.write(buf, false);
        buf.extend_from_slice(self.data.as_slice());
        proof {
            assert(final(buf)@ =~= old(buf)@ + self.spec_local_bytes());
        }
    }

    /// Append the central directory entry for this record, given the offset
    /// at which its local header was written.
    pub fn write_central_directory_entry(&self, buf: &mut Vec<u8>, local_header_offset: u32)
        requires
            self.spec_fits(),
        ensures
            final(buf)@ == old(buf)@ + self.spec_central_bytes(local_header_offset),
    {
        push_u32_le(buf, CENTRAL_FILE_HEADER_SIGNATURE);
        push_u16_le(buf, VERSION_MADE_BY);
        push_u16_le(buf, VERSION_NEEDED_TO_EXTRACT);
        push_u16_le(buf, GENERAL_PURPOSE_BIT_FLAG);
        push_u16_le(buf, self.compression_type.code());
        // Zero DOS time and date, as in the local header.
        push_u16_le(buf, 0);
        push_u16_le(buf, 0);
        push_u32_le(buf, self.crc);
        push_u32_le(buf, self.data.len() as u32);
        push_u32_le(buf, self.uncompressed_size);
        push_u16_le(buf, self.filename.len() as u16);
        push_u16_le(buf, self.extra_fields.data_length(true));
        let clen: usize = match &self.file_comment {
            Some(c) => c.as_str().as_bytes().len(),
            None => 0,
        };
        push_u16_le(buf, clen as u16);
        // Disk number and internal attributes.
        push_u16_le(buf, 0);
        push_u16_le(buf, 0);
        push_u32_le(buf, self.external_file_attributes);
        push_u32_le(buf, local_header_offset);
        proof {
            assert(buf@ =~= old(buf)@ + self.spec_central_fixed(local_header_offset));
        }
        let ghost after_fixed = buf@;
        buf.extend_from_slice(self.filename.as_slice());
        self.extra_fields.write(buf, true);
        match &self.file_comment {
            Some(c) => buf.extend_from_slice(c.as_str().as_bytes()),
            None => (),
        }
        proof {
            assert(final(buf)@ =~= after_fixed + self.filename@ + spec_fields_bytes(
                self.extra_fields.values@,
                true,
            ) + self.spec_comment_bytes());
            assert(final(buf)@ =~= old(buf)@ + self.spec_central_bytes(local_header_offset));
        }
    }

    /// Build a directory record: always Stored, no payload, zero CRC and
    /// sizes, and a name coerced to end with a path separator.
    pub fn directory(
        name: String,
        extra_fields: ExtraFields,
        external_attributes: u16,
        file_comment: Option<String>,
    ) -> (r: Self)
        ensures
            spec_is_directory_record(
                r,
                name@,
                extra_fields.values@,
                external_attributes,
                file_comment,
            ),
            r.filename@.len() > 0,
            r.filename@.last() == 47u8 || r.filename@.last() == 92u8,
    {
        let mut name_bytes = name.as_str().as_bytes_vec();
        let n = name_bytes.len();
        if n == 0 || (name_bytes[n - 1] != 47 && name_bytes[n - 1] != 92) {
            name_bytes.push(47);
        }
        ZipFile {
            compression_type: CompressionType::Stored,
            crc: 0,
            uncompressed_size: 0,
            filename: name_bytes,
            data: Vec::new(),
            external_file_attributes: (external_attributes as u32) << 16,
            extra_fields,
            file_comment,
        }
    }

    /// Default external attributes for a regular file entry.
    pub fn default_file_attrs() -> (r: u16)
        ensures
            r == DEFAULT_UNIX_FILE_ATTRS,
    {
        DEFAULT_UNIX_FILE_ATTRS
    }

    /// Default external attributes for a directory entry.
    pub fn default_dir_attrs() -> (r: u16)
        ensures
            r == DEFAULT_UNIX_DIR_ATTRS,
    {
        DEFAULT_UNIX_DIR_ATTRS
    }
}

} // verus!
