//! Archive state and the layout of the complete ZIP byte stream.
//!
//! The stream is: every record's local file header and payload, in record
//! order; then every record's central directory entry, each pointing back at
//! the offset where its local header started; then the end-of-central-
//! directory record whose counts, size and offset fields describe exactly
//! the central directory that was written.

use vstd::prelude::*;
use vstd::bytes::*;

use crate::ZipError;
use crate::extra_field::push_u16_le;
use crate::extra_field::push_u32_le;
use crate::file::ZipFile;

verus! {

/// Signature opening the end-of-central-directory record.
pub const END_OF_CENTRAL_DIR_SIGNATURE: u32 = 0x06054B50;

/// A bound on the encoded size of any one record whose parts fit their
/// header fields: more than 30 + two 16-bit lengths + one 32-bit payload.
pub const MAX_RECORD_LEN: u64 = 0x1_0003_0000;

/// The ordered collection of processed records, serialized on demand.
#[derive(Debug, Default)]
pub struct ZipData {
    /// The records, in the order their local headers will be written.
    pub files: Vec<ZipFile>,
}

/// All local file headers with their payloads, concatenated in record order.
pub open spec fn spec_locals_bytes(files: Seq<ZipFile>) -> Seq<u8>
    decreases files.len(),
{
    if files.len() == 0 {
        Seq::empty()
    } else {
        spec_locals_bytes(files.drop_last()) + files.last().spec_local_bytes()
    }
}

/// Total length of the local headers and payloads.
pub open spec fn spec_locals_len(files: Seq<ZipFile>) -> int
    decreases files.len(),
{
    if files.len() == 0 {
        0
    } else {
        spec_locals_len(files.drop_last()) + files.last().spec_local_len()
    }
}

/// All central directory entries, concatenated in record order; entry `i`
/// points at the offset where record `i`'s local header starts.
pub open spec fn spec_centrals_bytes(files: Seq<ZipFile>) -> Seq<u8>
    decreases files.len(),
{
    if files.len() == 0 {
        Seq::empty()
    } else {
        spec_centrals_bytes(files.drop_last()) + files.last().spec_central_bytes(
            spec_locals_len(files.drop_last()) as u32,
        )
    }
}

/// Total length of the central directory.
pub open spec fn spec_centrals_len(files: Seq<ZipFile>) -> int
    decreases files.len(),
{
    if files.len() == 0 {
        0
    } else {
        spec_centrals_len(files.drop_last()) + files.last().spec_central_len()
    }
}

/// The 22-byte end-of-central-directory record: signature, two zero disk
/// numbers, the entry count twice, the central directory size and start
/// offset, and a zero comment length.
pub open spec fn spec_eocd_bytes(count: u16, cd_size: u32, cd_offset: u32) -> Seq<u8> {
    spec_u32_to_le_bytes(END_OF_CENTRAL_DIR_SIGNATURE) + spec_u16_to_le_bytes(0)
        + spec_u16_to_le_bytes(0) + spec_u16_to_le_bytes(count) + spec_u16_to_le_bytes(count)
        + spec_u32_to_le_bytes(cd_size) + spec_u32_to_le_bytes(cd_offset) + spec_u16_to_le_bytes(0)
}

/// Every record's variable-length parts fit their header fields.
pub open spec fn spec_all_fit(files: Seq<ZipFile>) -> bool {
    forall|k: int| 0 <= k < files.len() ==> (#[trigger] files[k]).spec_fits()
}

/// The whole archive fits the format: each record fits its fields, the
/// entry count fits 16 bits, and both directory offsets fit 32 bits.
pub open spec fn spec_archive_fits(files: Seq<ZipFile>) -> bool {
    &&& spec_all_fit(files)
    &&& files.len() <= 0xFFFF
    &&& spec_locals_len(files) <= 0xFFFFFFFF
    &&& spec_centrals_len(files) <= 0xFFFFFFFF
}

/// The complete archive byte stream for the given records.
pub open spec fn spec_archive_bytes(files: Seq<ZipFile>) -> Seq<u8> {
    spec_locals_bytes(files) + spec_centrals_bytes(files) + spec_eocd_bytes(
        files.len() as u16,
        spec_centrals_len(files) as u32,
        spec_locals_len(files) as u32,
    )
}

/// The concatenated encodings are exactly as long as the summed lengths
/// say, and the sums never go negative.
pub proof fn lemma_section_lens(files: Seq<ZipFile>)
    ensures
        spec_locals_bytes(files).len() == spec_locals_len(files),
        spec_centrals_bytes(files).len() == spec_centrals_len(files),
        spec_locals_len(files) >= 0,
        spec_centrals_len(files) >= 0,
    decreases files.len(),
{
    if files.len() > 0 {
        lemma_section_lens(files.drop_last());
        files.last().lemma_local_bytes_len();
        files.last().lemma_central_bytes_len(spec_locals_len(files.drop_last()) as u32);
        crate::extra_field::lemma_fields_bytes_len(files.last().extra_fields.values@, false);
        crate::extra_field::lemma_fields_bytes_len(files.last().extra_fields.values@, true);
    }
}

/// When every record fits its fields, each section's length is bounded by
/// a fixed per-record maximum.
pub proof fn lemma_section_len_bounds(files: Seq<ZipFile>)
    requires
        spec_all_fit(files),
    ensures
        spec_locals_len(files) <= MAX_RECORD_LEN * files.len(),
        spec_centrals_len(files) <= MAX_RECORD_LEN * files.len(),
    decreases files.len(),
{
    if files.len() > 0 {
        assert(spec_all_fit(files.drop_last()));
        lemma_section_len_bounds(files.drop_last());
        assert(files.last() == files[files.len() - 1]);
        crate::extra_field::lemma_fields_bytes_len(files.last().extra_fields.values@, false);
        crate::extra_field::lemma_fields_bytes_len(files.last().extra_fields.values@, true);
    }
}

/// Extending the record prefix by one appends that record's encoding to
/// both sections and adds its encoded lengths.
pub proof fn lemma_sections_take_succ(files: Seq<ZipFile>, i: int)
    requires
        0 <= i < files.len(),
    ensures
        spec_locals_bytes(files.take(i + 1)) == spec_locals_bytes(files.take(i))
            + files[i].spec_local_bytes(),
        spec_locals_len(files.take(i + 1)) == spec_locals_len(files.take(i))
            + files[i].spec_local_len(),
        spec_centrals_bytes(files.take(i + 1)) == spec_centrals_bytes(files.take(i))
            + files[i].spec_central_bytes(spec_locals_len(files.take(i)) as u32),
        spec_centrals_len(files.take(i + 1)) == spec_centrals_len(files.take(i))
            + files[i].spec_central_len(),
{
    assert(files.take(i + 1).drop_last() =~= files.take(i));
    assert(files.take(i + 1).last() == files[i]);
}

/// A prefix of the records never serializes longer than the whole
/// sequence, in either section.
pub proof fn lemma_section_len_prefix(files: Seq<ZipFile>, i: int)
    requires
        0 <= i <= files.len(),
    ensures
        spec_locals_len(files.take(i)) <= spec_locals_len(files),
        spec_centrals_len(files.take(i)) <= spec_centrals_len(files),
    decreases files.len() - i,
{
    if i < files.len() {
        lemma_section_len_prefix(files, i + 1);
        lemma_sections_take_succ(files, i);
        files[i].lemma_local_bytes_len();
        files[i].lemma_central_bytes_len(spec_locals_len(files.take(i)) as u32);
        crate::extra_field::lemma_fields_bytes_len(files[i].extra_fields.values@, false);
        crate::extra_field::lemma_fields_bytes_len(files[i].extra_fields.values@, true);
    } else {
        assert(files.take(i) =~= files);
    }
}

/// The end-of-central-directory record describes exactly what was written:
/// it follows the two sections, both entry-count fields hold the number of
/// records, the size field holds the central directory's length and the
/// offset field the offset at which the central directory starts.
pub proof fn lemma_eocd_describes_archive(files: Seq<ZipFile>)
    requires
        spec_archive_fits(files),
    ensures
        spec_archive_bytes(files) == spec_locals_bytes(files) + spec_centrals_bytes(files)
            + spec_eocd_bytes(
            files.len() as u16,
            spec_centrals_bytes(files).len() as u32,
            spec_locals_bytes(files).len() as u32,
        ),
        spec_archive_bytes(files).len() == spec_locals_len(files) + spec_centrals_len(files) + 22,
        ({
            let eocd = spec_eocd_bytes(
                files.len() as u16,
                spec_centrals_len(files) as u32,
                spec_locals_len(files) as u32,
            );
            &&& eocd.len() == 22
            &&& eocd.subrange(8, 10) == spec_u16_to_le_bytes(files.len() as u16)
            &&& eocd.subrange(10, 12) == spec_u16_to_le_bytes(files.len() as u16)
            &&& eocd.subrange(12, 16) == spec_u32_to_le_bytes(spec_centrals_bytes(files).len() as u32)
            &&& eocd.subrange(16, 20) == spec_u32_to_le_bytes(spec_locals_bytes(files).len() as u32)
        }),
{
    lemma_section_lens(files);
    lemma_auto_spec_u16_to_from_le_bytes();
    lemma_auto_spec_u32_to_from_le_bytes();
    let eocd = spec_eocd_bytes(
        files.len() as u16,
        spec_centrals_len(files) as u32,
        spec_locals_len(files) as u32,
    );
    assert(eocd.subrange(8, 10) =~= spec_u16_to_le_bytes(files.len() as u16));
    assert(eocd.subrange(10, 12) =~= spec_u16_to_le_bytes(files.len() as u16));
    assert(eocd.subrange(12, 16) =~= spec_u32_to_le_bytes(spec_centrals_len(files) as u32));
    assert(eocd.subrange(16, 20) =~= spec_u32_to_le_bytes(spec_locals_len(files) as u32));
}

impl ZipData {
    /// Serialize every record into the writer and consume them: local
    /// headers with payloads, the central directory, the end-of-central-
    /// directory record. Fails, leaving the writer and the records
    /// untouched, exactly when some capacity limit of the format is
    /// exceeded.
    pub fn write(&mut self, buf: &mut Vec<u8>) -> (r: Result<(), ZipError>)
        ensures
            (r is Ok) <==> spec_archive_fits(old(self).files@),
            r is Ok ==> final(buf)@ == old(buf)@ + spec_archive_bytes(old(self).files@)
                && final(self).files@.len() == 0,
            r is Err ==> final(self).files@ == old(self).files@ && final(buf)@ == old(buf)@,
            r == Err::<(), ZipError>(ZipError::TooManyEntries) ==> old(self).files@.len() > 0xFFFF,
            r == Err::<(), ZipError>(ZipError::ArchiveTooLarge) ==> spec_locals_len(old(self).files@) > 0xFFFFFFFF
                || spec_centrals_len(old(self).files@) > 0xFFFFFFFF,
            (r matches Err(e) && e != ZipError::TooManyEntries && e != ZipError::ArchiveTooLarge)
                ==> exists|k: int|
                0 <= k < old(self).files@.len() && !(#[trigger] old(self).files@[k]).spec_fits(),
    {
        let ghost fseq = self.files@;
        if self.files.len() > 0xFFFF {
            return Err(ZipError::TooManyEntries);
        }
        // First pass: check every record against the format's capacity
        // limits and add up both sections' lengths.
        let mut local_total: u64 = 0;
        let mut central_total: u64 = 0;
        let mut i: usize = 0;
        proof {
            assert(fseq.take(0) =~= Seq::<ZipFile>::empty());
        }
        while i < self.files.len()
            invariant
                self.files@ == fseq,
                0 <= i <= fseq.len(),
                fseq.len() <= 0xFFFF,
                spec_all_fit(fseq.take(i as int)),
                local_total == spec_locals_len(fseq.take(i as int)),
                central_total == spec_centrals_len(fseq.take(i as int)),
            decreases fseq.len() - i,
        {
            match self.files[i].capacity_error() {
                Some(e) => {
                    proof {
                        assert(!fseq[i as int].spec_fits());
                    }
                    return Err(e);
                },
                None => (),
            }
            let llen = self.files[i].local_len();
            let clen = self.files[i].central_len();
            proof {
                lemma_sections_take_succ(fseq, i as int);
                assert(spec_all_fit(fseq.take(i + 1)));
                lemma_section_len_bounds(fseq.take(i + 1));
                crate::extra_field::lemma_fields_bytes_len(
                    fseq[i as int].extra_fields.values@,
                    false,
                );
                crate::extra_field::lemma_fields_bytes_len(
                    fseq[i as int].extra_fields.values@,
                    true,
                );
            }
            local_total = local_total + llen;
            central_total = central_total + clen;
            i = i + 1;
        }
        proof {
            assert(fseq.take(fseq.len() as int) =~= fseq);
        }
        if local_total > 0xFFFFFFFF || central_total > 0xFFFFFFFF {
            return Err(ZipError::ArchiveTooLarge);
        }
        // Second pass: write the local headers with their payloads,
        // recording the offset at which each one starts.
        let mut offsets: Vec<u32> = Vec::new();
        let mut off: u64 = 0;
        i = 0;
        proof {
            assert(fseq.take(0) =~= Seq::<ZipFile>::empty());
            assert(old(buf)@ + Seq::<u8>::empty() =~= old(buf)@);
        }
        while i < self.files.len()
            invariant
                self.files@ == fseq,
                0 <= i <= fseq.len(),
                spec_archive_fits(fseq),
                buf@ == old(buf)@ + spec_locals_bytes(fseq.take(i as int)),
                off == spec_locals_len(fseq.take(i as int)),
                offsets@.len() == i,
                forall|k: int|
                    0 <= k < i ==> #[trigger] offsets@[k] == spec_locals_len(fseq.take(k)),
            decreases fseq.len() - i,
        {
            proof {
                lemma_section_len_prefix(fseq, i as int);
                lemma_section_lens(fseq);
            }
            offsets.push(off as u32);
            self.files[i].write_local_file_header_and_data(buf);
            let llen = self.files[i].local_len();
            proof {
                lemma_sections_take_succ(fseq, i as int);
                lemma_section_len_prefix(fseq, i + 1);
            }
            off = off + llen;
            i = i + 1;
        }
        proof {
            assert(fseq.take(fseq.len() as int) =~= fseq);
        }
        let cd_offset: u32 = off as u32;
        let ghost after_locals = buf@;
        // Third pass: write the central directory entries.
        i = 0;
        proof {
            assert(fseq.take(0) =~= Seq::<ZipFile>::empty());
            assert(after_locals + Seq::<u8>::empty() =~= after_locals);
        }
        while i < self.files.len()
            invariant
                self.files@ == fseq,
                0 <= i <= fseq.len(),
                spec_archive_fits(fseq),
                buf@ == after_locals + spec_centrals_bytes(fseq.take(i as int)),
                offsets@.len() == fseq.len(),
                forall|k: int|
                    0 <= k < fseq.len() ==> #[trigger] offsets@[k] == spec_locals_len(
                        fseq.take(k),
                    ),
            decreases fseq.len() - i,
        {
            let entry_offset = offsets[i];
            self.files[i].write_central_directory_entry(buf, entry_offset);
            proof {
                lemma_sections_take_succ(fseq, i as int);
            }
            i = i + 1;
        }
        proof {
            assert(fseq.take(fseq.len() as int) =~= fseq);
        }
        // End-of-central-directory record.
        let ghost after_centrals = buf@;
        let count: u16 = self.files.len() as u16;
        let cd_size: u32 = central_total as u32;
        push_u32_le(buf, END_OF_CENTRAL_DIR_SIGNATURE);
        push_u16_le(buf, 0);
        push_u16_le(buf, 0);
        push_u16_le(buf, count);
        push_u16_le(buf, count);
        push_u32_le(buf, cd_size);
        push_u32_le(buf, cd_offset);
        push_u16_le(buf, 0);
        proof {
            assert(buf@ =~= after_centrals + spec_eocd_bytes(count, cd_size, cd_offset));
            assert(buf@ =~= old(buf)@ + spec_archive_bytes(fseq));
        }
        self.files.clear();
        Ok(())
    }
}

} // verus!
