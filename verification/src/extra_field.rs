//! ZIP extra fields: optional metadata blocks attached to an entry.
//!
//! Each field is encoded as a 2-byte header id, a 2-byte data length and a
//! payload. The extended-timestamp field shrinks when written into the
//! central directory: only the modification time is kept there.

use vstd::prelude::*;
use vstd::bytes::*;

verus! {

/// Flag bit marking the modification time as present.
pub const MOD_TIME_PRESENT: u8 = 1;

/// Flag bit marking the access time as present.
pub const AC_TIME_PRESENT: u8 = 2;

/// Flag bit marking the creation time as present.
pub const CR_TIME_PRESENT: u8 = 4;

/// Extra data that can be associated with a file or directory: filesystem
/// timestamps and ownership in NTFS or UNIX format.
#[derive(Debug, Clone, Copy, PartialEq, Eq)]
pub enum ExtraField {
    /// NTFS file times, a fixed 32-byte block identical in local and central
    /// placement.
    Ntfs {
        /// Last modification timestamp.
        mtime: u64,
        /// Last access timestamp.
        atime: u64,
        /// Creation timestamp.
        ctime: u64,
    },
    /// UNIX extended timestamp; access and creation times are written only
    /// into the local header, never into the central directory.
    UnixExtendedTimestamp {
        /// Modification time, seconds since the epoch.
        mod_time: Option<i32>,
        /// Access time, seconds since the epoch.
        ac_time: Option<i32>,
        /// Creation time, seconds since the epoch.
        cr_time: Option<i32>,
    },
    /// UNIX owner: numeric user and group ids.
    UnixAttrs {
        /// Owning user id.
        uid: u32,
        /// Owning group id.
        gid: u32,
    },
}

/// Encoded size of an optional 32-bit timestamp: present fields take 4 bytes.
pub open spec fn spec_opt_time_size(t: Option<i32>) -> int {
    if t is Some {
        4
    } else {
        0
    }
}

/// The two's-complement 32-bit pattern of a signed timestamp, as it is laid
/// out on the wire.
pub open spec fn spec_i32_bits(v: i32) -> u32 {
    if v >= 0 {
        v as u32
    } else {
        (v + 0x1_0000_0000) as u32
    }
}

/// Little-endian encoding of an optional timestamp; absent fields encode to
/// nothing.
pub open spec fn spec_opt_time_bytes(t: Option<i32>) -> Seq<u8> {
    match t {
        Some(v) => spec_u32_to_le_bytes(spec_i32_bits(v)),
        None => Seq::empty(),
    }
}

impl ExtraField {
    /// The 2-byte header id identifying the field kind.
    pub open spec fn spec_header_id(self) -> u16 {
        match self {
            ExtraField::Ntfs { .. } => 0x000a,
            ExtraField::UnixExtendedTimestamp { .. } => 0x5455,
            ExtraField::UnixAttrs { .. } => 0x7875,
        }
    }

    /// The value of the 2-byte data-length field: the payload size, which for
    /// the extended timestamp depends on the placement.
    pub open spec fn spec_field_size(self, central_header: bool) -> int {
        match self {
            ExtraField::Ntfs { .. } => 32,
            ExtraField::UnixExtendedTimestamp { mod_time, ac_time, cr_time } => {
                1 + spec_opt_time_size(mod_time) + if central_header {
                    0
                } else {
                    spec_opt_time_size(ac_time) + spec_opt_time_size(cr_time)
                }
            },
            ExtraField::UnixAttrs { .. } => 11,
        }
    }

    /// The presence bitmask of the extended-timestamp field. All three flag
    /// bits are always written, even when the central copy omits the access
    /// and creation time values themselves.
    pub open spec fn spec_time_flags(mod_time: Option<i32>, ac_time: Option<i32>, cr_time: Option<i32>) -> u8 {
        ((if mod_time is Some {
            MOD_TIME_PRESENT
        } else {
            0
        }) + (if ac_time is Some {
            AC_TIME_PRESENT
        } else {
            0
        }) + (if cr_time is Some {
            CR_TIME_PRESENT
        } else {
            0
        })) as u8
    }

    /// The payload bytes that follow the id and data-length fields.
    pub open spec fn spec_payload(self, central_header: bool) -> Seq<u8> {
        match self {
            ExtraField::Ntfs { mtime, atime, ctime } => spec_u32_to_le_bytes(0)
                + spec_u16_to_le_bytes(1) + spec_u16_to_le_bytes(24) + spec_u64_to_le_bytes(mtime)
                + spec_u64_to_le_bytes(atime) + spec_u64_to_le_bytes(ctime),
            ExtraField::UnixExtendedTimestamp { mod_time, ac_time, cr_time } => seq![
                Self::spec_time_flags(mod_time, ac_time, cr_time),
            ] + spec_opt_time_bytes(mod_time) + if central_header {
                Seq::empty()
            } else {
                spec_opt_time_bytes(ac_time) + spec_opt_time_bytes(cr_time)
            },
            ExtraField::UnixAttrs { uid, gid } => seq![1u8, 4u8] + spec_u32_to_le_bytes(uid)
                + seq![4u8] + spec_u32_to_le_bytes(gid),
        }
    }

    /// The complete encoding of the field: id, data length, payload.
    pub open spec fn spec_bytes(self, central_header: bool) -> Seq<u8> {
        spec_u16_to_le_bytes(self.spec_header_id()) + spec_u16_to_le_bytes(
            self.spec_field_size(central_header) as u16,
        ) + self.spec_payload(central_header)
    }

    /// The payload is exactly as long as the data-length field says.
    pub proof fn lemma_payload_len(self, central_header: bool)
        ensures
            self.spec_payload(central_header).len() == self.spec_field_size(central_header),
            0 < self.spec_field_size(central_header) <= 32,
    {
        lemma_auto_spec_u16_to_from_le_bytes();
        lemma_auto_spec_u32_to_from_le_bytes();
        lemma_auto_spec_u64_to_from_le_bytes();
    }

    /// The whole encoding is the data length plus the 4 header bytes.
    pub proof fn lemma_bytes_len(self, central_header: bool)
        ensures
            self.spec_bytes(central_header).len() == 4 + self.spec_field_size(central_header),
    {
        lemma_auto_spec_u16_to_from_le_bytes();
        self.lemma_payload_len(central_header);
    }

    /// The 2-byte header id identifying the field kind.
    pub fn header_id(&self) -> (r: u16)
        ensures
            r == self.spec_header_id(),
    {
        match self {
            ExtraField::Ntfs { .. } => 0x000a,
            ExtraField::UnixExtendedTimestamp { .. } => 0x5455,
            ExtraField::UnixAttrs { .. } => 0x7875,
        }
    }

    /// Encoded size of an optional 32-bit timestamp.
    pub fn optional_field_size(field: &Option<i32>) -> (r: u16)
        ensures
            r == spec_opt_time_size(*field),
    {
        match field {
            Some(_) => 4,
            None => 0,
        }
    }

    /// The value of the 2-byte data-length field for the given placement.
    pub fn field_size(&self, central_header: bool) -> (r: u16)
        ensures
            r == self.spec_field_size(central_header),
    {
        match self {
            ExtraField::Ntfs { .. } => 32,
            ExtraField::UnixExtendedTimestamp { mod_time, ac_time, cr_time } => {
                1 + Self::optional_field_size(mod_time) + if central_header {
                    0
                } else {
                    Self::optional_field_size(ac_time) + Self::optional_field_size(cr_time)
                }
            },
            ExtraField::UnixAttrs { .. } => 11,
        }
    }

    /// The flag byte contribution of one optional timestamp.
    pub fn if_present(val: Option<i32>, if_present: u8) -> (r: u8)
        ensures
            r == (if val is Some {
                if_present
            } else {
                0u8
            }),
    {
        match val {
            Some(_) => if_present,
            None => 0,
        }
    }

    /// Append the complete encoding of this field for the given placement.
    pub fn write(self, out: &mut Vec<u8>, central_header: bool)
        ensures
            final(out)@ == old(out)@ + self.spec_bytes(central_header),
    {
        push_u16_le(out, self.header_id());
        push_u16_le(out, self.field_size(central_header));
        match self {
            ExtraField::Ntfs { mtime, atime, ctime } => {
                push_u32_le(out, 0);
                push_u16_le(out, 1);
                push_u16_le(out, 24);
                push_u64_le(out, mtime);
                push_u64_le(out, atime);
                push_u64_le(out, ctime);
            },
            ExtraField::UnixExtendedTimestamp { mod_time, ac_time, cr_time } => {
                let flags = Self::if_present(mod_time, MOD_TIME_PRESENT) + Self::if_present(
                    ac_time,
                    AC_TIME_PRESENT,
                ) + Self::if_present(cr_time, CR_TIME_PRESENT);
                out.push(flags);
                push_opt_time(out, mod_time);
                if !central_header {
                    push_opt_time(out, ac_time);
                    push_opt_time(out, cr_time);
                }
            },
            ExtraField::UnixAttrs { uid, gid } => {
                out.push(1);
                out.push(4);
                push_u32_le(out, uid);
                out.push(4);
                push_u32_le(out, gid);
            },
        }
        proof {
            assert(final(out)@ =~= old(out)@ + self.spec_bytes(central_header));
        }
    }
}

/// Total encoded length of a sequence of extra fields for the given
/// placement: 4 header bytes plus the payload size of each field.
pub open spec fn spec_fields_data_length(fields: Seq<ExtraField>, central_header: bool) -> int
    decreases fields.len(),
{
    if fields.len() == 0 {
        0
    } else {
        spec_fields_data_length(fields.drop_last(), central_header) + 4 + fields.last().spec_field_size(
            central_header,
        )
    }
}

/// Concatenated encoding of a sequence of extra fields, in order.
pub open spec fn spec_fields_bytes(fields: Seq<ExtraField>, central_header: bool) -> Seq<u8>
    decreases fields.len(),
{
    if fields.len() == 0 {
        Seq::empty()
    } else {
        spec_fields_bytes(fields.drop_last(), central_header) + fields.last().spec_bytes(
            central_header,
        )
    }
}

/// The concatenated encoding is exactly as long as the summed data length
/// says, and the sum grows by 5 to 36 bytes per field.
pub proof fn lemma_fields_bytes_len(fields: Seq<ExtraField>, central_header: bool)
    ensures
        spec_fields_bytes(fields, central_header).len() == spec_fields_data_length(
            fields,
            central_header,
        ),
        spec_fields_data_length(fields, central_header) >= 0,
        spec_fields_data_length(fields, central_header) <= 36 * fields.len(),
    decreases fields.len(),
{
    if fields.len() > 0 {
        lemma_fields_bytes_len(fields.drop_last(), central_header);
        fields.last().lemma_bytes_len(central_header);
        fields.last().lemma_payload_len(central_header);
    }
}

/// A prefix of the fields never encodes longer than the whole sequence.
pub proof fn lemma_fields_data_length_prefix(fields: Seq<ExtraField>, i: int, central_header: bool)
    requires
        0 <= i <= fields.len(),
    ensures
        spec_fields_data_length(fields.take(i), central_header) <= spec_fields_data_length(
            fields,
            central_header,
        ),
    decreases fields.len() - i,
{
    if i < fields.len() {
        lemma_fields_data_length_prefix(fields, i + 1, central_header);
        assert(fields.take(i + 1).drop_last() =~= fields.take(i));
        assert(fields.take(i + 1).last() == fields[i]);
        fields[i].lemma_payload_len(central_header);
    } else {
        assert(fields.take(i) =~= fields);
    }
}

/// A collection of [`ExtraField`]s attached to one archive entry. Insertion
/// order is preserved so that output is deterministic.
#[derive(Debug, Clone, PartialEq, Eq)]
pub struct ExtraFields {
    /// The fields, in the order they will be written.
    pub values: Vec<ExtraField>,
}

impl Default for ExtraFields {
    /// An empty collection.
    fn default() -> (r: Self)
        ensures
            r.values@.len() == 0,
    {
        ExtraFields { values: Vec::new() }
    }
}

impl ExtraFields {
    /// Wrap an ordered list of fields.
    pub fn new(fields: Vec<ExtraField>) -> (r: Self)
        ensures
            r.values@ == fields@,
    {
        ExtraFields { values: fields }
    }

    /// Total encoded length for the given placement.
    pub open spec fn spec_data_length(self, central_header: bool) -> int {
        spec_fields_data_length(self.values@, central_header)
    }

    /// Concatenated encoding for the given placement.
    pub open spec fn spec_bytes(self, central_header: bool) -> Seq<u8> {
        spec_fields_bytes(self.values@, central_header)
    }

    /// The total encoded length fits the 16-bit extra-field-length header
    /// field.
    pub open spec fn spec_fits(self, central_header: bool) -> bool {
        self.spec_data_length(central_header) <= 0xFFFF
    }

    /// The total encoded length, if it fits the 16-bit header field.
    pub fn data_length_checked(&self, central_header: bool) -> (r: Option<u16>)
        ensures
            (r is Some) <==> self.spec_fits(central_header),
            r matches Some(n) ==> n == self.spec_data_length(central_header),
    {
        let mut acc: u32 = 0;
        let mut i: usize = 0;
        proof {
            assert(self.values@.take(0) =~= Seq::<ExtraField>::empty());
        }
        while i < self.values.len()
            invariant
                0 <= i <= self.values@.len(),
                acc == spec_fields_data_length(self.values@.take(i as int), central_header),
                acc <= 0xFFFF,
            decreases self.values@.len() - i,
        {
            let fs = self.values[i].field_size(central_header);
            proof {
                assert(self.values@.take(i + 1).drop_last() =~= self.values@.take(i as int));
                assert(self.values@.take(i + 1).last() == self.values@[i as int]);
                self.values@[i as int].lemma_payload_len(central_header);
            }
            let next = acc + 4 + (fs as u32);
            if next > 0xFFFF {
                proof {
                    lemma_fields_data_length_prefix(self.values@, i + 1, central_header);
                }
                return None;
            }
            acc = next;
            i = i + 1;
        }
        proof {
            assert(self.values@.take(self.values@.len() as int) =~= self.values@);
        }
        Some(acc as u16)
    }

    /// Total encoded length for the given placement. The caller must already
    /// know that it fits the 16-bit header field.
    pub fn data_length(&self, central_header: bool) -> (r: u16)
        requires
            self.spec_fits(central_header),
        ensures
            r == self.spec_data_length(central_header),
    {
        match self.data_length_checked(central_header) {
            Some(n) => n,
            None => vstd::pervasive::unreached(),
        }
    }

    /// Append the encoding of every field, in order, for the given placement.
    pub fn write(&self, writer: &mut Vec<u8>, central_header: bool)
        ensures
            final(writer)@ == old(writer)@ + self.spec_bytes(central_header),
    {
        let mut i: usize = 0;
        proof {
            assert(spec_fields_bytes(self.values@.take(0), central_header) =~= Seq::<u8>::empty());
            assert(old(writer)@ + Seq::<u8>::empty() =~= old(writer)@);
        }
        while i < self.values.len()
            invariant
                0 <= i <= self.values@.len(),
                writer@ == old(writer)@ + spec_fields_bytes(
                    self.values@.take(i as int),
                    central_header,
                ),
            decreases self.values@.len() - i,
        {
            proof {
                assert(self.values@.take(i + 1).drop_last() =~= self.values@.take(i as int));
                assert(self.values@.take(i + 1).last() == self.values@[i as int]);
            }
            self.values[i].write(writer, central_header);
            i = i + 1;
        }
        proof {
            assert(self.values@.take(self.values@.len() as int) =~= self.values@);
        }
    }
}

/// Append the little-endian bytes of a 16-bit value.
pub fn push_u16_le(out: &mut Vec<u8>, v: u16)
    ensures
        final(out)@ == old(out)@ + spec_u16_to_le_bytes(v),
{
    let mut b = u16_to_le_bytes(v);
    out.append(&mut b);
}

/// Append the little-endian bytes of a 32-bit value.
pub fn push_u32_le(out: &mut Vec<u8>, v: u32)
    ensures
        final(out)@ == old(out)@ + spec_u32_to_le_bytes(v),
{
    let mut b = u32_to_le_bytes(v);
    out.append(&mut b);
}

/// Append the little-endian bytes of a 64-bit value.
pub fn push_u64_le(out: &mut Vec<u8>, v: u64)
    ensures
        final(out)@ == old(out)@ + spec_u64_to_le_bytes(v),
{
    let mut b = u64_to_le_bytes(v);
    out.append(&mut b);
}

/// The 32-bit two's-complement pattern of a signed timestamp.
fn i32_bits(v: i32) -> (r: u32)
    ensures
        r == spec_i32_bits(v),
{
    if v >= 0 {
        v as u32
    } else {
        ((v as i64) + 0x1_0000_0000) as u32
    }
}

/// Append the encoding of an optional timestamp; absent values write nothing.
fn push_opt_time(out: &mut Vec<u8>, t: Option<i32>)
    ensures
        final(out)@ == old(out)@ + spec_opt_time_bytes(t),
{
    match t {
        Some(v) => push_u32_le(out, i32_bits(v)),
        None => (),
    }
}

} // verus!
