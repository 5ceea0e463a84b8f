//! A snapshot of the file-system facts the walk has asked about.
//!
//! The walk never touches the file system itself: it reads this value, and
//! reports the paths whose facts are missing. The caller answers each
//! reported path with both facts at once — whether it names a regular file,
//! and what reading it gave — and runs the walk again.

use vstd::prelude::*;

verus! {

/// The two facts recorded of one path: whether it names a regular file,
/// and the outcome of reading it (its content, or the reported cause of
/// the failure).
#[derive(Debug)]
pub struct PathFacts {
    pub is_file: bool,
    pub read: Result<Vec<u8>, Vec<u8>>,
}

/// Ghost image of [`PathFacts`].
pub ghost struct PathFactsV {
    pub is_file: bool,
    pub read: Result<Seq<u8>, Seq<u8>>,
}

impl View for PathFacts {
    type V = PathFactsV;

    open spec fn view(&self) -> PathFactsV {
        PathFactsV {
            is_file: self.is_file,
            read: match self.read {
                Result::Ok(c) => Result::Ok(c@),
                Result::Err(e) => Result::Err(e@),
            },
        }
    }
}

/// The snapshot: an association list from path to facts. Where one path
/// occurs twice, the first entry wins.
#[derive(Debug)]
pub struct FsModel {
    pub entries: Vec<(Vec<u8>, PathFacts)>,
}

/// The facts the snapshot holds of path `p`, if any: the first entry whose
/// key is `p`.
pub open spec fn spec_lookup(s: Seq<(Vec<u8>, PathFacts)>, p: Seq<u8>) -> Option<PathFactsV>
    decreases s.len(),
{
    if s.len() == 0 {
        Option::None
    } else if s[0].0@ == p {
        Option::Some(s[0].1@)
    } else {
        spec_lookup(s.drop_first(), p)
    }
}

impl FsModel {
    /// An empty snapshot.
    pub fn new() -> (r: FsModel)
        ensures
            r.entries@.len() == 0,
    {
        FsModel { entries: Vec::new() }
    }

    /// The facts of `p`, if recorded.
    pub open spec fn spec_facts(self, p: Seq<u8>) -> Option<PathFactsV> {
        spec_lookup(self.entries@, p)
    }

    /// Records the facts of one path, at the end of the list.
    pub fn record(&mut self, path: Vec<u8>, facts: PathFacts)
        ensures
            final(self).entries@ == old(self).entries@.push((path, facts)),
    {
        self.entries.push((path, facts));
    }

    /// Finds the first entry whose key is `p`, as an index into `entries`.
    pub fn lookup_index(&self, p: &Vec<u8>) -> (r: Option<usize>)
        ensures
            match r {
                Option::Some(i) => {
                    &&& i < self.entries@.len()
                    &&& self.entries@[i as int].0@ == p@
                    &&& self.spec_facts(p@) == Option::Some(self.entries@[i as int].1@)
                },
                Option::None => self.spec_facts(p@) is None,
            },
    {
        let mut i: usize = 0;
        proof {
            assert(self.entries@.skip(0) =~= self.entries@);
        }
        while i < self.entries.len()
            invariant
                i <= self.entries@.len(),
                spec_lookup(self.entries@, p@) == spec_lookup(self.entries@.skip(i as int), p@),
                forall|j: int| 0 <= j < i ==> self.entries@[j].0@ != p@,
            decreases self.entries@.len() - i,
        {
            proof {
                assert(self.entries@.skip(i as int)[0] == self.entries@[i as int]);
            }
            if crate::text::bytes_eq(&self.entries[i].0, p) {
                return Option::Some(i);
            }
            proof {
                assert(self.entries@.skip(i as int).drop_first() =~= self.entries@.skip(
                    i as int + 1,
                ));
            }
            i += 1;
        }
        proof {
            assert(self.entries@.skip(i as int).len() == 0);
        }
        Option::None
    }
}

} // verus!
