//! Peripherals as a scan reports them, and the search for the eligible ones.

use crate::matcher::MatchFilter;
use vstd::prelude::*;

verus! {

/// A peripheral that a scan has seen. Its place in the scan's list is the
/// handle by which the driver knows it.
#[derive(Clone, Debug, PartialEq, Eq)]
pub struct PeripheralRecord {
    /// The advertised local name, where the peripheral advertises one.
    pub name: Option<String>,
    /// Whether the host held a connection to the peripheral when it was listed.
    pub connected: bool,
}

/// Index of the first record at or after `from` whose name the filter
/// accepts, or `None` where no such record is left.
pub open spec fn first_match(
    filter: MatchFilter,
    records: Seq<PeripheralRecord>,
    from: nat,
) -> Option<nat>
    decreases records.len() - from,
{
    if from >= records.len() {
        None
    } else if filter.accepts(records[from as int].name) {
        Some(from)
    } else {
        first_match(filter, records, from + 1)
    }
}

/// `first_match` finds the least eligible index from `from` on: the record it
/// names is accepted and every record between `from` and it is not; it finds
/// none only where no record from `from` on is accepted.
pub proof fn lemma_first_match_is_least(
    filter: MatchFilter,
    records: Seq<PeripheralRecord>,
    from: nat,
)
    ensures
        match first_match(filter, records, from) {
            Some(found) => {
                &&& from <= found < records.len()
                &&& filter.accepts(records[found as int].name)
                &&& forall|i: int| from <= i < found ==> !filter.accepts(#[trigger] records[i].name)
            },
            None => forall|i: int|
                from <= i < records.len() ==> !filter.accepts(#[trigger] records[i].name),
        },
    decreases records.len() - from,
{
    if from < records.len() && !filter.accepts(records[from as int].name) {
        lemma_first_match_is_least(filter, records, from + 1);
    }
}

/// Finds the first eligible record at or after `from`.
pub fn find_match(filter: &MatchFilter, records: &Vec<PeripheralRecord>, from: usize) -> (found:
    Option<usize>)
    ensures
        match found {
            Some(i) => first_match(*filter, records@, from as nat) == Some(i as nat),
            None => first_match(*filter, records@, from as nat) is None,
        },
{
    let mut i: usize = from;
    while i < records.len()
        invariant
            from <= i,
            first_match(*filter, records@, from as nat) == first_match(*filter, records@, i as nat),
        decreases records.len() - i,
    {
        if filter.matches(&records[i].name) {
            return Some(i);
        }
        i += 1;
    }
    None
}

} // verus!
