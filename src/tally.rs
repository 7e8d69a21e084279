use vstd::prelude::*;
use crate::sort::Action;

verus! {

/// The counters of one run: files moved and deleted, with their sizes.
#[derive(Clone, Copy, Debug, PartialEq, Eq, Structural)]
pub struct RunTally {
    pub sorted_count: u64,
    pub sorted_bytes: u64,
    pub deleted_count: u64,
    pub deleted_bytes: u64,
}

/// The text that byte_unit gives for a size in bytes, with the unit that
/// suits it.
pub uninterp spec fn size_text(n: u64) -> Seq<char>;

/// Relies on `byte_unit::Byte::from_u64` and the alternate form of its
/// `Display`, which writes the size with a suitable unit (`10 KiB`).
#[verifier::external_body]
fn human_size(n: u64) -> (r: String)
    ensures
        r@ == size_text(n),
{
    format!("{:#}", byte_unit::Byte::from_u64(n))
}

/// One line of the end-of-run report.
pub struct SummaryLine {
    /// Deleted files when true, moved files when false.
    pub removed: bool,
    pub count: u64,
    pub size: String,
}

impl RunTally {
    /// The tally after an action on a file of `size` bytes: a deletion or a
    /// move that took place counts; anything else leaves the tally as it was.
    pub open spec fn after(self, a: Action, done: bool, size: u64) -> RunTally {
        if done && a is Remove {
            RunTally {
                deleted_count: (self.deleted_count + 1) as u64,
                deleted_bytes: (self.deleted_bytes + size) as u64,
                ..self
            }
        } else if done && a is MoveTo {
            RunTally {
                sorted_count: (self.sorted_count + 1) as u64,
                sorted_bytes: (self.sorted_bytes + size) as u64,
                ..self
            }
        } else {
            self
        }
    }

    /// The counters that `after` changes do not overflow.
    pub open spec fn fits(self, a: Action, done: bool, size: u64) -> bool {
        &&& done && a is Remove ==> self.deleted_count < u64::MAX && self.deleted_bytes + size
            <= u64::MAX
        &&& done && a is MoveTo ==> self.sorted_count < u64::MAX && self.sorted_bytes + size
            <= u64::MAX
    }

    /// A tally with every counter at zero.
    pub fn new() -> (t: RunTally)
        ensures
            t == (RunTally { sorted_count: 0, sorted_bytes: 0, deleted_count: 0, deleted_bytes: 0 }),
    {
        RunTally { sorted_count: 0, sorted_bytes: 0, deleted_count: 0, deleted_bytes: 0 }
    }

    /// Whether `record` can count this outcome without overflow.
    pub fn can_record(&self, a: Action, done: bool, size: u64) -> (r: bool)
        ensures
            r == self.fits(a, done, size),
    {
        if done {
            match a {
                Action::Remove => self.deleted_count < u64::MAX && size <= u64::MAX
                    - self.deleted_bytes,
                Action::MoveTo(_, _) => self.sorted_count < u64::MAX && size <= u64::MAX
                    - self.sorted_bytes,
                _ => true,
            }
        } else {
            true
        }
    }

    /// Counts the outcome of an action on a file of `size` bytes; `done` says
    /// whether the filesystem carried it out.
    pub fn record(&mut self, a: Action, done: bool, size: u64)
        requires
            old(self).fits(a, done, size),
        ensures
            *final(self) == old(self).after(a, done, size),
    {
        if done {
            match a {
                Action::Remove => {
                    self.deleted_count = self.deleted_count + 1;
                    self.deleted_bytes = self.deleted_bytes + size;
                },
                Action::MoveTo(_, _) => {
                    self.sorted_count = self.sorted_count + 1;
                    self.sorted_bytes = self.sorted_bytes + size;
                },
                _ => {},
            }
        }
    }

    /// The report of the run: a line for moved files unless sorting was off,
    /// then a line for deleted files unless deletion was off.
    pub fn summary(&self, no_sort: bool, no_del: bool) -> (r: Vec<SummaryLine>)
        ensures
            r@.len() == (if no_sort { 0int } else { 1int }) + (if no_del { 0int } else { 1int }),
            !no_sort ==> {
                &&& !r@[0].removed
                &&& r@[0].count == self.sorted_count
                &&& r@[0].size@ == size_text(self.sorted_bytes)
            },
            !no_del ==> {
                let k = if no_sort { 0int } else { 1int };
                &&& r@[k].removed
                &&& r@[k].count == self.deleted_count
                &&& r@[k].size@ == size_text(self.deleted_bytes)
            },
    {
        let mut r: Vec<SummaryLine> = Vec::new();
        if !no_sort {
            r.push(
                SummaryLine {
                    removed: false,
                    count: self.sorted_count,
                    size: human_size(self.sorted_bytes),
                },
            );
        }
        if !no_del {
            r.push(
                SummaryLine {
                    removed: true,
                    count: self.deleted_count,
                    size: human_size(self.deleted_bytes),
                },
            );
        }
        r
    }
}

/// An action that is not carried out, or that neither deletes nor moves,
/// leaves the tally unchanged.
pub proof fn only_completed_changes_count(t: RunTally, a: Action, done: bool, size: u64)
    requires
        !done || !(a is Remove || a is MoveTo),
    ensures
        t.after(a, done, size) == t,
{
}

} // verus!
