//! The library index: the current snapshot of all library entries.
//!
//! A snapshot is replaced whole, never edited in place. `refresh` builds the
//! new snapshot completely before it installs it, and takes `&mut self`, so
//! no reader of the same index can see a snapshot that is partly built.
//! Readers that share an index across threads hold it behind a lock that
//! gives `refresh` this exclusive access.
use vstd::prelude::*;

use std::sync::Arc;

use crate::error::Error;

verus! {

/// Identity of a library entry.
#[derive(Debug)]
pub struct VisualId {
    pub id: String,
}

impl VisualId {
    /// The identity written as `id`.
    pub fn new(id: &str) -> (r: VisualId)
        ensures
            r.id@ == id@,
    {
        VisualId { id: id.to_owned() }
    }
}

/// One library entry: a photo, a video, or a motion photo.
#[derive(Debug)]
pub struct Visual {
    pub visual_id: VisualId,
    pub path: String,
    /// The folder that holds the entry.
    pub parent_path: String,
    pub thumbnail_path: Option<String>,
    pub is_selfie: bool,
    pub is_video_only: bool,
    pub is_motion_photo: bool,
}

/// The identity of an entry, as text.
pub open spec fn id_of(v: Visual) -> Seq<char> {
    v.visual_id.id@
}

/// Relies on `Arc::clone`: the new handle shares the value of the old one.
#[verifier::external_body]
fn share<T>(a: &Arc<T>) -> (r: Arc<T>)
    ensures
        r == *a,
{
    Arc::clone(a)
}

/// Index of all photos and videos in the library.
pub struct Library {
    index: Vec<Arc<Visual>>,
}

impl View for Library {
    type V = Seq<Arc<Visual>>;

    closed spec fn view(&self) -> Seq<Arc<Visual>> {
        self.index@
    }
}

impl Library {
    /// An index with no entries.
    pub fn new() -> (r: Library)
        ensures
            r@ == Seq::<Arc<Visual>>::empty(),
    {
        Library { index: Vec::new() }
    }

    /// Installs the entries that a reload of the repository returned, in
    /// order, in place of the current snapshot. A failed reload is handed
    /// back and leaves the current snapshot as it was.
    pub fn refresh(&mut self, loaded: Result<Vec<Visual>, Error>) -> (r: Result<(), Error>)
        ensures
            match loaded {
                Ok(items) => r is Ok && final(self)@.len() == items@.len() && forall|i: int|
                    0 <= i < items@.len() ==> *#[trigger] final(self)@[i] == items@[i],
                Err(e) => r == Err::<(), Error>(e) && final(self)@ == old(self)@,
            },
    {
        match loaded {
            Ok(items) => {
                let ghost target = items@;
                let mut reversed = items;
                let mut backward: Vec<Arc<Visual>> = Vec::new();
                while reversed.len() > 0
                    invariant
                        backward.len() + reversed.len() == target.len(),
                        forall|i: int| 0 <= i < reversed.len() ==> #[trigger] reversed@[i] == target[i],
                        forall|i: int|
                            0 <= i < backward.len() ==> *#[trigger] backward@[i] == target[target.len() - 1 - i],
                    decreases reversed.len(),
                {
                    let v = reversed.pop().unwrap();
                    backward.push(Arc::new(v));
                }
                // Build the whole snapshot first, then install it at once.
                let mut all: Vec<Arc<Visual>> = Vec::new();
                while backward.len() > 0
                    invariant
                        all.len() + backward.len() == target.len(),
                        forall|i: int|
                            0 <= i < backward.len() ==> *#[trigger] backward@[i] == target[target.len() - 1 - i],
                        forall|i: int| 0 <= i < all.len() ==> *#[trigger] all@[i] == target[i],
                    decreases backward.len(),
                {
                    let v = backward.pop().unwrap();
                    all.push(v);
                }
                self.index = all;
                Ok(())
            },
            Err(e) => Err(e),
        }
    }

    /// A copy of the current snapshot: handles to the same entries, in order.
    pub fn all(&self) -> (r: Vec<Arc<Visual>>)
        ensures
            r@ == self@,
    {
        let mut r: Vec<Arc<Visual>> = Vec::new();
        let mut i: usize = 0;
        while i < self.index.len()
            invariant
                i <= self.index.len(),
                r@ =~= self.index@.take(i as int),
            decreases self.index.len() - i,
        {
            r.push(share(&self.index[i]));
            i = i + 1;
        }
        assert(self.index@.take(self.index@.len() as int) =~= self.index@);
        r
    }

    /// The first entry whose identity is `visual_id`, if there is one.
    pub fn get(&self, visual_id: &VisualId) -> (r: Option<Arc<Visual>>)
        ensures
            match r {
                Some(v) => exists|i: int|
                    0 <= i < self@.len() && self@[i] == v && id_of(*v) == visual_id.id@ && forall|j: int|
                        0 <= j < i ==> id_of(*#[trigger] self@[j]) != visual_id.id@,
                None => forall|i: int| 0 <= i < self@.len() ==> id_of(*#[trigger] self@[i]) != visual_id.id@,
            },
    {
        let mut i: usize = 0;
        while i < self.index.len()
            invariant
                i <= self.index.len(),
                forall|j: int| 0 <= j < i ==> id_of(*#[trigger] self@[j]) != visual_id.id@,
            decreases self.index.len() - i,
        {
            if self.index[i].visual_id.id == visual_id.id {
                return Some(share(&self.index[i]));
            }
            i = i + 1;
        }
        None
    }

    /// The number of entries in the current snapshot.
    pub fn len(&self) -> (r: usize)
        ensures
            r == self@.len(),
    {
        self.index.len()
    }
}

} // verus!
