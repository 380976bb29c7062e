//! Compression level: a validated tuning knob for the deflate compressor.

use vstd::prelude::*;

verus! {

/// A compression level in the range `0..=9`, where 0 means no compression
/// effort and 9 the maximum. Values outside the range are rejected at
/// construction, so a held value is always valid.
#[derive(Debug, Clone, Copy, PartialEq, Eq)]
pub struct CompressionLevel {
    level: u8,
}

impl CompressionLevel {
    /// Every held level is in range.
    #[verifier::type_invariant]
    pub closed spec fn wf(self) -> bool {
        self.level <= 9
    }

    /// The raw level value.
    pub closed spec fn spec_value(self) -> u8 {
        self.level
    }

    /// Build a level from a raw value; fails exactly when the value is
    /// greater than 9.
    pub fn new(level: u8) -> (r: Result<Self, crate::ZipError>)
        ensures
            (r is Ok) <==> level <= 9,
            r matches Ok(l) ==> l.spec_value() == level,
            r matches Err(e) ==> e == (crate::ZipError::InvalidCompressionLevel { value: level }),
    {
        if level <= 9 {
            Ok(CompressionLevel { level })
        } else {
            Err(crate::ZipError::InvalidCompressionLevel { value: level })
        }
    }

    /// Level 0: no compression.
    pub fn none() -> (r: Self)
        ensures
            r.spec_value() == 0,
    {
        CompressionLevel { level: 0 }
    }

    /// Level 1: fastest compression.
    pub fn fast() -> (r: Self)
        ensures
            r.spec_value() == 1,
    {
        CompressionLevel { level: 1 }
    }

    /// Level 6: a balance between speed and output size.
    pub fn balanced() -> (r: Self)
        ensures
            r.spec_value() == 6,
    {
        CompressionLevel { level: 6 }
    }

    /// Level 9: best compression.
    pub fn best() -> (r: Self)
        ensures
            r.spec_value() == 9,
    {
        CompressionLevel { level: 9 }
    }

    /// The raw level value.
    pub fn value(&self) -> (r: u8)
        ensures
            r == self.spec_value(),
            r <= 9,
    {
        proof {
            use_type_invariant(self);
        }
        self.level
    }
}

} // verus!
