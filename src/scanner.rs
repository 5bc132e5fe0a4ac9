//! What a scan of the picture directory reports for each picture.
use vstd::prelude::*;

verus! {

/// An instant in UTC: whole seconds since the Unix epoch and the nanoseconds past them.
#[derive(PartialEq, Eq, Structural, Clone, Copy, Debug)]
pub struct Timestamp {
    pub secs: i64,
    pub nanos: u32,
}

/// An instant together with the UTC offset, in seconds, of the clock that recorded it.
#[derive(PartialEq, Eq, Structural, Clone, Copy, Debug)]
pub struct OffsetTimestamp {
    pub utc: Timestamp,
    pub offset_secs: i32,
}

impl OffsetTimestamp {
    /// The same instant, without the offset.
    pub fn to_utc(&self) -> (r: Timestamp)
        ensures
            r == self.utc,
    {
        self.utc
    }
}

/// Dates read from a picture's EXIF data.
#[derive(PartialEq, Eq, Structural, Clone, Copy, Debug)]
pub struct Exif {
    pub created_at: Option<OffsetTimestamp>,
}

/// Dates read from the file system.
#[derive(PartialEq, Eq, Structural, Clone, Copy, Debug)]
pub struct FsMetadata {
    pub created_at: Option<Timestamp>,
}

/// A picture found by a scan.
#[derive(Debug)]
pub struct Picture {
    pub path: String,
    pub exif: Option<Exif>,
    pub fs: Option<FsMetadata>,
}

} // verus!
