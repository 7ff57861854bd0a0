//! Normalizes the commit ranges recorded when an item is closed.
use vstd::prelude::*;

use crate::text::{
    dedup_first, dedup_strings, join, join_with, lemma_dedup_first, nonblank_pieces,
    push_nonblank_pieces, string_views,
};

verus! {

/// The trimmed, non-empty comma-separated ranges of all values, in order.
pub open spec fn raw_ranges(values: Seq<String>) -> Seq<Seq<char>>
    decreases values.len(),
{
    if values.len() == 0 {
        seq![]
    } else {
        raw_ranges(values.drop_last()) + nonblank_pieces(values.last()@, ',')
    }
}

/// The recorded commit provenance: the distinct ranges in first-seen order joined by `, `,
/// or nothing when there are none.
pub open spec fn normalized_ranges(values: Seq<String>) -> Option<Seq<char>> {
    let ranges = dedup_first(raw_ranges(values));
    if ranges.len() == 0 {
        None
    } else {
        Some(join_with(ranges, ", "@))
    }
}

/// Normalizes repeated raw commit-range values: splits each at `,`, trims the ranges, drops
/// empty ones and repeats, and joins the rest in first-seen order with `, `.
pub fn normalize(values: &Vec<String>) -> (r: Option<String>)
    ensures
        crate::pending_work::project_registry::opt_view(r) == normalized_ranges(values@),
{
    let mut ranges: Vec<String> = Vec::new();
    let mut i: usize = 0;
    while i < values.len()
        invariant
            i <= values.len(),
            string_views(ranges@) == raw_ranges(values@.take(i as int)),
        decreases values.len() - i,
    {
        proof {
            assert(values@.take(i + 1).drop_last() =~= values@.take(i as int));
        }
        push_nonblank_pieces(&mut ranges, values[i].as_str(), ',');
        i = i + 1;
    }
    assert(values@.take(values.len() as int) =~= values@);
    let distinct = dedup_strings(&ranges);
    if distinct.len() == 0 {
        None
    } else {
        Some(join(&distinct, ", "))
    }
}

/// Every recorded range is recorded once, and a range is recorded exactly when some value
/// holds it.
pub proof fn lemma_normalized_ranges_distinct(values: Seq<String>)
    ensures
        dedup_first(raw_ranges(values)).no_duplicates(),
        forall|range: Seq<char>|
            dedup_first(raw_ranges(values)).contains(range) <==> raw_ranges(values).contains(
                range,
            ),
{
    lemma_dedup_first(raw_ranges(values));
}

} // verus!
