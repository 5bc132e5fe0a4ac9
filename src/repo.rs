//! Records of the picture repository.
use vstd::prelude::*;

use crate::scanner::Timestamp;

verus! {

/// A picture as the repository stores it.
#[derive(Debug)]
pub struct Picture {
    pub path: String,
    /// The instant by which pictures are ordered, if one is known.
    pub order_by_ts: Option<Timestamp>,
}

/// What a record holds, as plain values.
pub open spec fn picture_view(p: Picture) -> (Seq<char>, Option<Timestamp>) {
    (p.path@, p.order_by_ts)
}

impl Picture {
    /// A copy of this record.
    pub fn copy(&self) -> (r: Picture)
        ensures
            picture_view(r) == picture_view(*self),
    {
        Picture { path: self.path.clone(), order_by_ts: self.order_by_ts }
    }
}

} // verus!
