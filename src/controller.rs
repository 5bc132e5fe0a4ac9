//! The controller: turns the pictures that a scan reports into repository
//! records and keeps the records it has added.
use vstd::prelude::*;

use crate::error::Error;
use crate::repo::{self, picture_view};
use crate::scanner::{self, Timestamp};

verus! {

/// The instant by which a scanned picture is ordered: its EXIF creation time
/// when it has one, else its file system creation time.
pub open spec fn order_by_ts(pic: scanner::Picture) -> Option<Timestamp> {
    match pic.exif {
        Some(exif) if exif.created_at is Some => Some(exif.created_at->Some_0.utc),
        _ => match pic.fs {
            Some(fs) => fs.created_at,
            None => None,
        },
    }
}

/// The record that a scanned picture becomes.
pub open spec fn record_of(pic: scanner::Picture) -> (Seq<char>, Option<Timestamp>) {
    (pic.path@, order_by_ts(pic))
}

/// Aggregates what the scanner reports and what the repository holds.
pub struct Controller {
    pictures: Vec<repo::Picture>,
}

impl View for Controller {
    type V = Seq<(Seq<char>, Option<Timestamp>)>;

    closed spec fn view(&self) -> Seq<(Seq<char>, Option<Timestamp>)> {
        self.pictures@.map_values(|p: repo::Picture| picture_view(p))
    }
}

/// The repository record for a scanned picture.
pub fn as_repo_pic(pic: scanner::Picture) -> (r: repo::Picture)
    ensures
        picture_view(r) == record_of(pic),
{
    let exif_date_time = match pic.exif {
        Some(exif) => exif.created_at,
        None => None,
    };
    let fs_date_time = match pic.fs {
        Some(fs) => fs.created_at,
        None => None,
    };
    let order_by_ts = match exif_date_time {
        Some(d) => Some(d.to_utc()),
        None => fs_date_time,
    };
    repo::Picture { path: pic.path, order_by_ts }
}

impl Controller {
    /// A controller that has added no records yet.
    pub fn new() -> (r: Controller)
        ensures
            r@ == Seq::<(Seq<char>, Option<Timestamp>)>::empty(),
    {
        let r = Controller { pictures: Vec::new() };
        assert(r@ =~= Seq::<(Seq<char>, Option<Timestamp>)>::empty());
        r
    }

    /// Adds a record for each picture of a scan, in the order the scan
    /// reported them. A failed scan is handed back and adds nothing.
    pub fn scan(&mut self, scanned: Result<Vec<scanner::Picture>, Error>) -> (r: Result<(), Error>)
        ensures
            match scanned {
                Ok(pics) => r is Ok && final(self)@ == old(self)@ + pics@.map_values(
                    |p: scanner::Picture| record_of(p),
                ),
                Err(e) => r == Err::<(), Error>(e) && final(self)@ == old(self)@,
            },
    {
        match scanned {
            Ok(pics) => {
                let ghost added = pics@.map_values(|p: scanner::Picture| record_of(p));
                let mut reversed = pics;
                let mut forward: Vec<scanner::Picture> = Vec::new();
                while reversed.len() > 0
                    invariant
                        forall|i: int|
                            0 <= i < forward.len() ==> #[trigger] record_of(forward@[i]) == added[
                                added.len() - 1 - i
                            ],
                        forward.len() + reversed.len() == added.len(),
                        forall|i: int|
                            0 <= i < reversed.len() ==> #[trigger] record_of(reversed@[i])
                                == added[i],
                    decreases reversed.len(),
                {
                    let p = reversed.pop().unwrap();
                    forward.push(p);
                }
                let ghost start = self@;
                while forward.len() > 0
                    invariant
                        forward.len() <= added.len(),
                        forall|i: int|
                            0 <= i < forward.len() ==> #[trigger] record_of(forward@[i]) == added[
                                added.len() - 1 - i
                            ],
                        self@ =~= start + added.take(added.len() - forward.len()),
                    decreases forward.len(),
                {
                    let p = forward.pop().unwrap();
                    let rec = as_repo_pic(p);
                    let ghost before = self@;
                    self.pictures.push(rec);
                    assert(self@ =~= before.push(picture_view(rec)));
                    assert(added.take(added.len() - forward.len()) =~= added.take(
                        added.len() - forward.len() - 1,
                    ).push(added[added.len() - forward.len() - 1]));
                }
                assert(added.take(added.len() as int) =~= added);
                Ok(())
            },
            Err(e) => Err(e),
        }
    }

    /// All records added so far, in the order they were added.
    pub fn all(&self) -> (r: Result<Vec<repo::Picture>, Error>)
        ensures
            r is Ok,
            r matches Ok(v) && v@.map_values(|p: repo::Picture| picture_view(p)) == self@,
    {
        let mut out: Vec<repo::Picture> = Vec::new();
        let mut i: usize = 0;
        while i < self.pictures.len()
            invariant
                i <= self.pictures.len(),
                out@.map_values(|p: repo::Picture| picture_view(p)) =~= self@.take(i as int),
            decreases self.pictures.len() - i,
        {
            let ghost before = out@;
            out.push(self.pictures[i].copy());
            assert(out@.map_values(|p: repo::Picture| picture_view(p)) =~= before.map_values(
                |p: repo::Picture| picture_view(p),
            ).push(self@[i as int]));
            i = i + 1;
        }
        assert(self@.take(self@.len() as int) =~= self@);
        Ok(out)
    }
}

} // verus!
