//! The workload planner: which entry each request of a run is made from.

use vstd::prelude::*;
use vstd::string::*;
use crate::error::RurlError;
use crate::perf::dataset::{entry_views, DatasetEntry, DatasetEntryView};

verus! {

/// The plan for `total` requests over `entries`: request `i` is made from
/// entry `i mod len`. Where there are at least `total` entries these are
/// the first `total` of them; where there are fewer they repeat in order.
pub open spec fn planned(entries: Seq<DatasetEntryView>, total: nat) -> Seq<DatasetEntryView> {
    Seq::new(total, |i: int| entries[i % (entries.len() as int)])
}

/// Plans `total` requests over `entries`. Nothing can be planned over no
/// entries: that is reported as a dataset error.
pub fn plan(entries: &Vec<DatasetEntry>, total: usize) -> (r: Result<Vec<DatasetEntry>, RurlError>)
    ensures
        match r {
            Ok(items) => entries@.len() > 0 && entry_views(items@) == planned(
                entry_views(entries@),
                total as nat,
            ),
            Err(e) => entries@.len() == 0 && e is DatasetError && e.detail() == "Empty dataset"@,
        },
{
    let len = entries.len();
    if len == 0 {
        return Err(RurlError::DatasetError(String::from_str("Empty dataset")));
    }
    let mut items: Vec<DatasetEntry> = Vec::new();
    let mut i: usize = 0;
    let mut next: usize = 0;
    while i < total
        invariant
            len == entries@.len(),
            len > 0,
            i <= total,
            next < len,
            next == i % len,
            items@.len() == i,
            forall|j: int| 0 <= j < i ==> (#[trigger] items@[j])@ == entries@[j % (len as int)]@,
        decreases total - i,
    {
        items.push(entries[next].clone());
        proof {
            lemma_next_index(i as int, len as int);
        }
        next = if next + 1 == len { 0 } else { next + 1 };
        i += 1;
    }
    assert(entry_views(items@) =~= planned(entry_views(entries@), total as nat));
    Ok(items)
}

/// Stepping an index around a cycle of `len` positions follows the
/// remainder of the count.
pub proof fn lemma_next_index(i: int, len: int)
    requires
        0 <= i,
        0 < len,
    ensures
        (i + 1) % len == if i % len + 1 == len { 0 } else { i % len + 1 },
{
    vstd::arithmetic::div_mod::lemma_fundamental_div_mod(i, len);
    vstd::arithmetic::div_mod::lemma_mod_bound(i, len);
    let q = i / len;
    let r = i % len;
    assert(len * q == q * len) by (nonlinear_arith);
    assert((q + 1) * len == q * len + len) by (nonlinear_arith);
    if r + 1 == len {
        vstd::arithmetic::div_mod::lemma_fundamental_div_mod_converse(i + 1, len, q + 1, 0);
    } else {
        vstd::arithmetic::div_mod::lemma_fundamental_div_mod_converse(i + 1, len, q, r + 1);
    }
}

/// A plan holds exactly as many requests as were asked for, and over a
/// dataset that is not empty request `i` is made from entry `i mod len`.
pub proof fn lemma_plan_cycles(entries: Seq<DatasetEntryView>, total: nat, i: int)
    requires
        entries.len() > 0,
        0 <= i < total,
    ensures
        planned(entries, total).len() == total,
        0 <= i % (entries.len() as int) < entries.len(),
        planned(entries, total)[i] == entries[i % (entries.len() as int)],
{
    vstd::arithmetic::div_mod::lemma_mod_bound(i, entries.len() as int);
}

/// Over a dataset with at least as many entries as requests are asked
/// for, the plan is the first `total` entries in their order.
pub proof fn lemma_plan_truncates(entries: Seq<DatasetEntryView>, total: nat)
    requires
        entries.len() >= total,
    ensures
        planned(entries, total) == entries.take(total as int),
{
    assert forall|i: int| 0 <= i < total implies planned(entries, total)[i] == entries.take(
        total as int,
    )[i] by {
        vstd::arithmetic::div_mod::lemma_small_mod(i as nat, entries.len());
    }
    assert(planned(entries, total) =~= entries.take(total as int));
}

} // verus!
