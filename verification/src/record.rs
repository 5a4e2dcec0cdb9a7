//! The mute record: for each process the engine has touched, the mute flag
//! its session had before the first touch.

use std::collections::HashMap;
use vstd::prelude::*;

verus! {

/// What recording `flag` for `pid` makes of `record`: a new entry if `pid` had
/// none, no change if it had one.
pub open spec fn record_one(record: Map<u32, bool>, pid: u32, flag: bool) -> Map<u32, bool> {
    if record.contains_key(pid) {
        record
    } else {
        record.insert(pid, flag)
    }
}

/// Saved mute flags by pid. An entry is written once and then kept until
/// the whole record is taken.
pub struct MuteRecord {
    saved: HashMap<u32, bool>,
}

impl View for MuteRecord {
    type V = Map<u32, bool>;

    closed spec fn view(&self) -> Map<u32, bool> {
        self.saved@
    }
}

impl MuteRecord {
    /// An empty record.
    pub fn new() -> (record: MuteRecord)
        ensures
            record@ == Map::<u32, bool>::empty(),
    {
        MuteRecord { saved: HashMap::new() }
    }

    /// Saves `flag` for `pid` unless a flag is saved for it already.
    pub fn record_if_absent(&mut self, pid: u32, flag: bool)
        ensures
            final(self)@ == record_one(old(self)@, pid, flag),
    {
        if !self.saved.contains_key(&pid) {
            self.saved.insert(pid, flag);
        }
    }

    /// Whether `pid` has an entry.
    pub fn contains(&self, pid: u32) -> (present: bool)
        ensures
            present == self@.contains_key(pid),
    {
        self.saved.contains_key(&pid)
    }

    /// The flag saved for `pid`, if any.
    pub fn saved_flag(&self, pid: u32) -> (flag: Option<bool>)
        ensures
            flag == (if self@.contains_key(pid) {
                Some(self@[pid])
            } else {
                None
            }),
    {
        match self.saved.get(&pid) {
            Some(flag) => Some(*flag),
            None => None,
        }
    }

    /// The number of entries.
    pub fn len(&self) -> (n: usize)
        ensures
            n == self@.len(),
    {
        self.saved.len()
    }

    /// Whether the record has no entry.
    pub fn is_empty(&self) -> (empty: bool)
        ensures
            empty == (self@ == Map::<u32, bool>::empty()),
    {
        let empty = self.saved.is_empty();
        proof {
            if empty {
                assert(self@ =~= Map::<u32, bool>::empty());
            }
        }
        empty
    }

    /// Hands out the whole record and leaves an empty one behind, in one step.
    pub fn take(&mut self) -> (taken: MuteRecord)
        ensures
            taken@ == old(self)@,
            final(self)@ == Map::<u32, bool>::empty(),
    {
        let mut taken = MuteRecord::new();
        std::mem::swap(&mut self.saved, &mut taken.saved);
        taken
    }
}

/// Record-once: a second recording for the same pid changes nothing, whatever
/// flag it brings.
pub proof fn lemma_record_once(record: Map<u32, bool>, pid: u32, first: bool, second: bool)
    ensures
        record_one(record_one(record, pid, first), pid, second) == record_one(record, pid, first),
        !record.contains_key(pid) ==> record_one(record_one(record, pid, first), pid, second)[pid]
            == first,
{
}

/// Recording for one pid leaves the entries of all others as they were.
pub proof fn lemma_record_one_frames(record: Map<u32, bool>, pid: u32, flag: bool, other: u32)
    requires
        other != pid,
    ensures
        record_one(record, pid, flag).contains_key(other) == record.contains_key(other),
        record.contains_key(other) ==> record_one(record, pid, flag)[other] == record[other],
{
}

} // verus!
