//! Multithread-friendly ZIP archive builder.
//!
//! Entries are registered as jobs, turned into compressed file records by a
//! compression pass, and serialized as a single-disk ZIP byte stream: local
//! file headers with payloads, the central directory, and the end-of-central-
//! directory record, all with verified lengths and offsets.
//!
//! [`ZipArchive::compress`] runs the pass inline. A caller that wants to
//! spread the work over worker threads drains the queue as one batch with
//! [`ZipArchive::take_jobs`], turns each job into a record with
//! [`job::ZipJob::into_file`] on any thread, and hands the records back
//! through [`ZipArchive::push_file`]; the record order may then differ from
//! registration order, which the format permits.

use vstd::prelude::*;

pub mod data;
pub mod extra_field;
pub mod file;
pub mod job;
pub mod level;

use crate::data::ZipData;
use crate::data::spec_archive_bytes;
use crate::data::spec_archive_fits;
use crate::extra_field::ExtraField;
use crate::extra_field::ExtraFields;
use crate::file::DEFAULT_UNIX_DIR_ATTRS;
use crate::file::DEFAULT_UNIX_FILE_ATTRS;
use crate::file::ZipFile;
use crate::file::spec_is_directory_record;
use crate::job::ZipJob;
use crate::job::ZipJobOrigin;
use crate::level::CompressionLevel;

verus! {

/// Failure conditions reported by the archive builder: invalid input values
/// and capacity limits of the single-disk, non-ZIP64 format.
#[derive(Debug, Clone, Copy, PartialEq, Eq)]
pub enum ZipError {
    /// A compression level outside `0..=9` was supplied.
    InvalidCompressionLevel {
        /// The rejected raw value.
        value: u8,
    },
    /// An entry's uncompressed or compressed payload does not fit the 32-bit
    /// size fields.
    EntryDataTooLarge,
    /// More entries than the 16-bit entry-count fields can hold.
    TooManyEntries,
    /// An entry name longer than the 16-bit name-length field allows.
    NameTooLong,
    /// An entry's total encoded extra-field length exceeds its 16-bit field.
    ExtraFieldsTooLong,
    /// An entry comment longer than the 16-bit comment-length field allows.
    CommentTooLong,
    /// Header offsets or the central directory size exceed their 32-bit
    /// fields.
    ArchiveTooLarge,
}

/// Compression method stored in a ZIP entry header. Directories always use
/// `Stored`. Regular entries default to `Deflate`.
#[derive(Debug, Clone, Copy, PartialEq, Eq)]
pub enum CompressionType {
    /// No compression at all, the data is stored as-is.
    Stored,
    /// Deflate compression, the most common in ZIP files.
    Deflate,
}

impl CompressionType {
    /// Method code written into the "compression method" header field.
    pub open spec fn spec_code(self) -> u16 {
        match self {
            CompressionType::Stored => 0,
            CompressionType::Deflate => 8,
        }
    }

    /// Method code written into the "compression method" header field.
    #[verifier::when_used_as_spec(spec_code)]
    pub fn code(self) -> (r: u16)
        ensures
            r == self.spec_code(),
    {
        match self {
            CompressionType::Stored => 0,
            CompressionType::Deflate => 8,
        }
    }
}

/// The compression level a job will use: the given one, or "best" (9).
pub open spec fn spec_level_value_or_best(level: Option<CompressionLevel>) -> u8 {
    match level {
        Some(l) => l.spec_value(),
        None => 9,
    }
}

/// The compression type a job will use: the given one, or Deflate.
pub open spec fn spec_type_or_default(t: Option<CompressionType>) -> CompressionType {
    match t {
        Some(c) => c,
        None => CompressionType::Deflate,
    }
}

/// The external attributes an entry will carry: the given word, or the
/// default.
pub open spec fn spec_attrs_or(attrs: Option<u16>, default: u16) -> u16 {
    match attrs {
        Some(a) => a,
        None => default,
    }
}

/// The extra fields an entry will carry: the given ones, or none.
pub open spec fn spec_extra_or_empty(e: Option<ExtraFields>) -> Seq<ExtraField> {
    match e {
        Some(f) => f.values@,
        None => Seq::empty(),
    }
}

/// What an in-memory registration queues: a raw-data job without a comment,
/// holding exactly the given bytes, name and settings.
pub open spec fn spec_is_memory_job(
    j: ZipJob,
    data: Seq<u8>,
    path: Seq<char>,
    level: u8,
    ct: CompressionType,
    attrs: u16,
    extra: Seq<ExtraField>,
) -> bool {
    &&& j.archive_path@ == path
    &&& j.file_comment is None
    &&& match j.data_origin {
        ZipJobOrigin::RawData {
            data: d,
            compression_level,
            compression_type,
            extra_fields,
            external_attributes,
        } => {
            &&& d@ == data
            &&& compression_level.spec_value() == level
            &&& compression_type == ct
            &&& extra_fields.values@ == extra
            &&& external_attributes == attrs
        },
        _ => false,
    }
}

/// The state of one archive under construction: the queued jobs not yet
/// compressed, and the finished records ready to be serialized.
#[derive(Debug)]
pub struct ZipArchive {
    jobs_queue: Vec<ZipJob>,
    data: ZipData,
}

impl Default for ZipArchive {
    /// An archive with no queued jobs and no records.
    fn default() -> (r: Self)
        ensures
            r.spec_jobs().len() == 0,
            r.spec_files().len() == 0,
    {
        ZipArchive { jobs_queue: Vec::new(), data: ZipData { files: Vec::new() } }
    }
}

impl ZipArchive {
    /// The queued, not-yet-processed jobs, in registration order.
    pub closed spec fn spec_jobs(self) -> Seq<ZipJob> {
        self.jobs_queue@
    }

    /// The finished records, in the order they will be serialized.
    pub closed spec fn spec_files(self) -> Seq<ZipFile> {
        self.data.files@
    }

    /// Create an empty archive.
    pub fn new() -> (r: Self)
        ensures
            r.spec_jobs().len() == 0,
            r.spec_files().len() == 0,
    {
        Self::default()
    }

    /// Number of queued jobs not yet compressed.
    pub fn job_count(&self) -> (r: usize)
        ensures
            r == self.spec_jobs().len(),
    {
        self.jobs_queue.len()
    }

    /// Number of finished records.
    pub fn file_count(&self) -> (r: usize)
        ensures
            r == self.spec_files().len(),
    {
        self.data.files.len()
    }

    /// Queue a job.
    fn push_job(&mut self, job: ZipJob)
        ensures
            final(self).spec_jobs() == old(self).spec_jobs().push(job),
            final(self).spec_files() == old(self).spec_files(),
    {
        self.jobs_queue.push(job);
    }

    /// Append a finished record directly.
    pub fn push_file(&mut self, file: ZipFile)
        ensures
            final(self).spec_files() == old(self).spec_files().push(file),
            final(self).spec_jobs() == old(self).spec_jobs(),
    {
        self.data.files.push(file);
    }

    /// Drain the queued jobs as one batch, leaving the queue empty.
    pub fn take_jobs(&mut self) -> (r: Vec<ZipJob>)
        ensures
            r@ == old(self).spec_jobs(),
            final(self).spec_jobs().len() == 0,
            final(self).spec_files() == old(self).spec_files(),
    {
        let mut taken: Vec<ZipJob> = Vec::new();
        core::mem::swap(&mut taken, &mut self.jobs_queue);
        taken
    }

    /// Queue a file whose data is already in memory.
    ///
    /// The compression type defaults to Deflate and the level to "best";
    /// the level is ignored for the Stored type. Attributes default to the
    /// regular-file permissions and the extra fields to none.
    pub fn add_file_from_memory(
        &mut self,
        data: Vec<u8>,
        archived_path: String,
        compression_level: Option<CompressionLevel>,
        compression_type: Option<CompressionType>,
        file_attributes: Option<u16>,
        extra_fields: Option<ExtraFields>,
    )
        ensures
            final(self).spec_files() == old(self).spec_files(),
            final(self).spec_jobs().len() == old(self).spec_jobs().len() + 1,
            forall|k: int|
                0 <= k < old(self).spec_jobs().len() ==> final(self).spec_jobs()[k] == old(
                    self,
                ).spec_jobs()[k],
            spec_is_memory_job(
                final(self).spec_jobs().last(),
                data@,
                archived_path@,
                spec_level_value_or_best(compression_level),
                spec_type_or_default(compression_type),
                spec_attrs_or(file_attributes, DEFAULT_UNIX_FILE_ATTRS),
                spec_extra_or_empty(extra_fields),
            ),
    {
        let level = match compression_level {
            Some(l) => l,
            None => CompressionLevel::best(),
        };
        let ct = match compression_type {
            Some(c) => c,
            None => CompressionType::Deflate,
        };
        let attrs = match file_attributes {
            Some(a) => a,
            None => ZipFile::default_file_attrs(),
        };
        let ef = match extra_fields {
            Some(f) => f,
            None => ExtraFields { values: Vec::new() },
        };
        let job = ZipJob {
            data_origin: ZipJobOrigin::RawData {
                data,
                compression_level: level,
                compression_type: ct,
                extra_fields: ef,
                external_attributes: attrs,
            },
            archive_path: archived_path,
            file_comment: None,
        };
        self.push_job(job);
    }

    /// Add a directory entry. Directories carry no data, so the record is
    /// built immediately instead of being queued; its name is coerced to
    /// end with a path separator.
    pub fn add_directory(&mut self, archived_path: String, attributes: Option<u16>)
        ensures
            final(self).spec_jobs() == old(self).spec_jobs(),
            final(self).spec_files().len() == old(self).spec_files().len() + 1,
            forall|k: int|
                0 <= k < old(self).spec_files().len() ==> final(self).spec_files()[k] == old(
                    self,
                ).spec_files()[k],
            spec_is_directory_record(
                final(self).spec_files().last(),
                archived_path@,
                Seq::empty(),
                spec_attrs_or(attributes, DEFAULT_UNIX_DIR_ATTRS),
                None,
            ),
    {
        let attrs = match attributes {
            Some(a) => a,
            None => ZipFile::default_dir_attrs(),
        };
        let file = ZipFile::directory(archived_path, ExtraFields { values: Vec::new() }, attrs, None);
        self.push_file(file);
    }

    /// Add a directory entry with explicit extra fields and attributes, for
    /// callers that carry their own filesystem metadata.
    pub fn add_directory_with_metadata(
        &mut self,
        archived_path: String,
        extra_fields: ExtraFields,
        attributes: Option<u16>,
    )
        ensures
            final(self).spec_jobs() == old(self).spec_jobs(),
            final(self).spec_files().len() == old(self).spec_files().len() + 1,
            forall|k: int|
                0 <= k < old(self).spec_files().len() ==> final(self).spec_files()[k] == old(
                    self,
                ).spec_files()[k],
            spec_is_directory_record(
                final(self).spec_files().last(),
                archived_path@,
                extra_fields.values@,
                spec_attrs_or(attributes, DEFAULT_UNIX_DIR_ATTRS),
                None,
            ),
    {
        let attrs = match attributes {
            Some(a) => a,
            None => ZipFile::default_dir_attrs(),
        };
        let file = ZipFile::directory(archived_path, extra_fields, attrs, None);
        self.push_file(file);
    }

    /// Run one compression pass: every queued job is processed exactly
    /// once, in registration order, and its record appended to the archive
    /// state; the queue is drained as one batch. With nothing queued this
    /// is a no-op, so running it twice never duplicates records. Fails,
    /// appending nothing, exactly when some job's data or payload does not
    /// fit the 32-bit size fields.
    pub fn compress(&mut self) -> (r: Result<(), ZipError>)
        ensures
            (r is Ok) <==> (forall|k: int|
                0 <= k < old(self).spec_jobs().len() ==> (#[trigger] old(
                    self,
                ).spec_jobs()[k]).spec_ok()),
            final(self).spec_jobs().len() == 0,
            r is Ok ==> {
                &&& final(self).spec_files().len() == old(self).spec_files().len() + old(
                    self,
                ).spec_jobs().len()
                &&& (forall|k: int|
                    0 <= k < old(self).spec_files().len() ==> final(self).spec_files()[k] == old(
                        self,
                    ).spec_files()[k])
                &&& (forall|k: int|
                    0 <= k < old(self).spec_jobs().len() ==> (#[trigger] old(
                        self,
                    ).spec_jobs()[k]).spec_record_of(
                        final(self).spec_files()[old(self).spec_files().len() + k],
                    ))
            },
            old(self).spec_jobs().len() == 0 ==> r is Ok && final(self).spec_files() == old(
                self,
            ).spec_files(),
            r is Err ==> final(self).spec_files() == old(self).spec_files() && r == Err::<
                (),
                ZipError,
            >(ZipError::EntryDataTooLarge),
    {
        let mut jobs = self.take_jobs();
        let ghost all_jobs = jobs@;
        let mut recs: Vec<ZipFile> = Vec::new();
        while jobs.len() > 0
            invariant
                all_jobs == old(self).spec_jobs(),
                recs@.len() + jobs@.len() == all_jobs.len(),
                jobs@ == all_jobs.skip(recs@.len() as int),
                forall|k: int|
                    0 <= k < recs@.len() ==> (#[trigger] all_jobs[k]).spec_ok()
                        && all_jobs[k].spec_record_of(recs@[k]),
                self.spec_jobs().len() == 0,
                self.spec_files() == old(self).spec_files(),
            decreases jobs@.len(),
        {
            let ghost n = recs@.len() as int;
            let job = jobs.remove(0);
            proof {
                assert(job == all_jobs[n]);
                assert(jobs@ =~= all_jobs.skip(n + 1));
            }
            match job.into_file() {
                Ok(f) => recs.push(f),
                Err(e) => {
                    proof {
                        assert(!all_jobs[n].spec_ok());
                    }
                    return Err(e);
                },
            }
        }
        proof {
            assert(recs@.len() == all_jobs.len());
        }
        self.data.files.append(&mut recs);
        Ok(())
    }

    /// Serialize the archive into the writer, running an implicit
    /// compression pass first if jobs are queued. On success the records
    /// are consumed and the writer has gained exactly the complete archive
    /// byte stream; on failure the writer is untouched.
    pub fn write(&mut self, writer: &mut Vec<u8>) -> (r: Result<(), ZipError>)
        ensures
            final(self).spec_jobs().len() == 0,
            r is Ok ==> final(self).spec_files().len() == 0,
            r is Err ==> final(writer)@ == old(writer)@,
            old(self).spec_jobs().len() == 0 ==> {
                &&& ((r is Ok) <==> spec_archive_fits(old(self).spec_files()))
                &&& (r is Ok ==> final(writer)@ == old(writer)@ + spec_archive_bytes(
                    old(self).spec_files(),
                ))
                &&& (r is Err ==> final(self).spec_files() == old(self).spec_files())
            },
            r is Ok ==> exists|recs: Seq<ZipFile>|
                {
                    &&& recs.len() == old(self).spec_jobs().len()
                    &&& (forall|k: int|
                        0 <= k < recs.len() ==> (#[trigger] old(
                            self,
                        ).spec_jobs()[k]).spec_record_of(recs[k]))
                    &&& spec_archive_fits(old(self).spec_files() + recs)
                    &&& final(writer)@ == old(writer)@ + spec_archive_bytes(
                        old(self).spec_files() + recs,
                    )
                },
    {
        let ghost old_files = self.spec_files();
        if self.jobs_queue.len() > 0 {
            match self.compress() {
                Ok(()) => (),
                Err(e) => {
                    return Err(e);
                },
            }
        }
        let ghost mid_files = self.spec_files();
        let r = self.data.write(writer);
        match r {
            Ok(()) => {
                proof {
                    let recs = mid_files.skip(old_files.len() as int);
                    assert(mid_files =~= old_files + recs);
                }
                Ok(())
            },
            Err(e) => Err(e),
        }
    }
}

} // verus!
