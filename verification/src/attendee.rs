use vstd::prelude::*;

use crate::ValidationError;
use crate::text::to_upper;
use crate::text::upper_of;

verus! {

/// The shared identity source for one kind of record: a single counter that
/// starts at zero, goes up by exactly one on every successful construction,
/// and never comes back down.
pub struct Counter {
    pub value: u32,
}

impl Counter {
    pub fn new() -> (r: Self)
        ensures
            r.value == 0,
    {
        Counter { value: 0 }
    }
}

/// A conference attendee: a registration number drawn once from a shared
/// counter and immutable afterwards, a stored display name that is never
/// empty, and a speaker flag.
pub struct Attendee {
    pub reg_num: u32,
    pub name: String,
    pub speaker: bool,
}

impl Attendee {
    /// The stored display name is never empty; construction and rename both
    /// refuse an empty one.
    pub open spec fn wf(self) -> bool {
        self.name@.len() > 0
    }

    /// Build a record, drawing its registration number from `counter`.
    ///
    /// An empty name is refused and the counter is left untouched; otherwise
    /// the record takes the counter's current value as its number, the
    /// counter moves up by one, and the name is stored verbatim.
    pub fn new(counter: &mut Counter, name: String, speaker: bool) -> (r: Result<Self, ValidationError>)
        requires
            old(counter).value < u32::MAX,
        ensures
            name@.len() == 0 ==> r is Err && *final(counter) == *old(counter),
            name@.len() > 0 ==> r is Ok,
            r is Ok ==> r->Ok_0.reg_num == old(counter).value
                && r->Ok_0.name == name
                && r->Ok_0.speaker == speaker
                && r->Ok_0.wf()
                && final(counter).value == old(counter).value + 1,
    {
        if name.as_str().is_empty() {
            Err(ValidationError)
        } else {
            let reg = counter.value;
            counter.value = counter.value + 1;
            Ok(Attendee { reg_num: reg, name, speaker })
        }
    }

    /// The display name, uppercased at read time: whatever is currently
    /// stored, never a cached transform of an earlier name.
    pub fn get_name(&self) -> (r: String)
        ensures
            r@ == upper_of(self.name@),
    {
        to_upper(self.name.as_str())
    }

    /// Replace the stored name. An empty name is refused and the record is
    /// left exactly as it was; on success only the stored name changes.
    pub fn set_name(&mut self, name: String) -> (r: Result<(), ValidationError>)
        ensures
            name@.len() == 0 ==> r is Err && *final(self) == *old(self),
            name@.len() > 0 ==> r is Ok
                && final(self).name == name
                && final(self).reg_num == old(self).reg_num
                && final(self).speaker == old(self).speaker,
            old(self).wf() ==> final(self).wf(),
    {
        if name.as_str().is_empty() {
            Err(ValidationError)
        } else {
            self.name = name;
            Ok(())
        }
    }

    pub fn reg_num(&self) -> (r: u32)
        ensures
            r == self.reg_num,
    {
        self.reg_num
    }

    pub fn speaker(&self) -> (r: bool)
        ensures
            r == self.speaker,
    {
        self.speaker
    }
}

/// Records built in creation order against one shared counter that started
/// at `start` carry the identifiers `start, start + 1, ...` in order.
pub open spec fn sequential_ids(records: Seq<Attendee>, start: int) -> bool {
    forall|i: int| 0 <= i < records.len() ==> #[trigger] records[i].reg_num == start + i
}

/// The registration numbers of a sequence of records, in creation order.
pub open spec fn ids_of(records: Seq<Attendee>) -> Seq<u32> {
    records.map(|i: int, a: Attendee| a.reg_num)
}

/// Records that shared one counter from its initial value of zero carry
/// exactly the identifiers `{0, 1, ..., n - 1}`: no duplicates and no gaps.
pub proof fn lemma_ids_gap_free(records: Seq<Attendee>)
    requires
        sequential_ids(records, 0),
    ensures
        forall|i: int, j: int|
            0 <= i < records.len() && 0 <= j < records.len() && i != j
                ==> #[trigger] records[i].reg_num != #[trigger] records[j].reg_num,
        forall|v: u32| #[trigger] ids_of(records).contains(v) <==> (v as int) < records.len(),
{
    assert forall|v: u32| ids_of(records).contains(v) implies (v as int) < records.len() by {
        let i = choose|i: int| 0 <= i < ids_of(records).len() && ids_of(records)[i] == v;
        assert(records[i].reg_num == 0 + i);
    }
    assert forall|v: u32| (v as int) < records.len() implies ids_of(records).contains(v) by {
        assert(records[v as int].reg_num == 0 + (v as int));
        assert(ids_of(records)[v as int] == v);
    }
}

} // verus!
