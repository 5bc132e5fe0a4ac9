//! What is known of a picture from the file system and its EXIF data.
use vstd::prelude::*;

use crate::scanner::{OffsetTimestamp, Timestamp};

verus! {

#[derive(Debug)]
pub struct PictureInfo {
    // From the file system.
    pub path: String,
    pub fs_modified_at: Option<Timestamp>,
    // From EXIF data.
    pub description: Option<String>,
    pub created_at: Option<OffsetTimestamp>,
    pub modified_at: Option<OffsetTimestamp>,
}

impl PictureInfo {
    /// A picture at `path` of which nothing else is known yet.
    pub fn new(path: String) -> (r: PictureInfo)
        ensures
            r.path == path,
            r.fs_modified_at is None,
            r.description is None,
            r.created_at is None,
            r.modified_at is None,
    {
        PictureInfo {
            path,
            fs_modified_at: None,
            description: None,
            created_at: None,
            modified_at: None,
        }
    }
}

} // verus!
