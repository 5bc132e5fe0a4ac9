//! Which library entries an album shows.
//!
//! Whether an entry's thumbnail exists on disk is a question for the file
//! system; the album asks it separately and shows only entries that have one.
use vstd::prelude::*;

use crate::library::Visual;

verus! {

/// The entries an album shows.
#[derive(Debug)]
pub enum AlbumFilter {
    /// Show no entries.
    Nothing,
    /// Show all entries.
    All,
    /// Show only selfies.
    Selfies,
    /// Show only videos.
    Videos,
    /// Show only motion photos.
    Motion,
    /// Show only entries of this folder.
    Folder(String),
}

/// Whether an album with filter `f` shows the entry `v`.
pub open spec fn shows(f: AlbumFilter, v: Visual) -> bool {
    match f {
        AlbumFilter::Nothing => false,
        AlbumFilter::All => true,
        AlbumFilter::Selfies => v.is_selfie,
        AlbumFilter::Videos => v.is_video_only,
        AlbumFilter::Motion => v.is_motion_photo,
        AlbumFilter::Folder(path) => v.parent_path@ == path@,
    }
}

pub fn filter_none(_item: &Visual) -> (r: bool)
    ensures
        !r,
{
    false
}

pub fn filter_selfie(item: &Visual) -> (r: bool)
    ensures
        r == item.is_selfie,
{
    item.is_selfie
}

pub fn filter_videos(item: &Visual) -> (r: bool)
    ensures
        r == item.is_video_only,
{
    item.is_video_only
}

pub fn filter_motion_photos(item: &Visual) -> (r: bool)
    ensures
        r == item.is_motion_photo,
{
    item.is_motion_photo
}

/// Whether the entry lies in the folder `path`.
pub fn filter_folder(path: &String, item: &Visual) -> (r: bool)
    ensures
        r == (item.parent_path@ == path@),
{
    item.parent_path == *path
}

impl AlbumFilter {
    /// Whether an album with this filter shows `item`.
    pub fn accepts(&self, item: &Visual) -> (r: bool)
        ensures
            r == shows(*self, *item),
    {
        match self {
            AlbumFilter::Nothing => filter_none(item),
            AlbumFilter::All => true,
            AlbumFilter::Selfies => filter_selfie(item),
            AlbumFilter::Videos => filter_videos(item),
            AlbumFilter::Motion => filter_motion_photos(item),
            AlbumFilter::Folder(path) => filter_folder(path, item),
        }
    }
}

} // verus!
