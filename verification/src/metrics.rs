//! What the metrics are made from.
//!
//! The machine publishes the statuses of the torrents of the last list and
//! the cumulative statistics of the daemon. A gauge reports for every status
//! how many torrents have it, zero for a status that no torrent has; a counter
//! reports the bytes sent and the bytes received. The torrents are counted in
//! a map from the number of a status to its count.

use crate::api::enums::Status;
use crate::api::response::SessionStats;
use std::collections::HashMap;
use vstd::prelude::*;

verus! {

/// How often a status occurs among the statuses of the torrents.
pub open spec fn occurrences(statuses: Seq<Status>, status: Status) -> nat
    decreases statuses.len(),
{
    if statuses.len() == 0 {
        0
    } else {
        let before = occurrences(statuses.drop_last(), status);
        if statuses.last() == status {
            before + 1
        } else {
            before
        }
    }
}

/// A status occurs no more often than there are statuses.
pub proof fn lemma_occurrences_bounded(statuses: Seq<Status>, status: Status)
    ensures
        occurrences(statuses, status) <= statuses.len(),
    decreases statuses.len(),
{
    if statuses.len() > 0 {
        lemma_occurrences_bounded(statuses.drop_last(), status);
    }
}

/// A status that no torrent has is counted as zero.
pub proof fn absent_status_counts_zero(statuses: Seq<Status>, status: Status)
    requires
        !statuses.contains(status),
    ensures
        occurrences(statuses, status) == 0,
    decreases statuses.len(),
{
    if statuses.len() > 0 {
        let before = statuses.drop_last();
        assert forall|i: int| 0 <= i < before.len() implies before[i] != status by {
            assert(statuses[i] == before[i]);
        }
        assert(statuses[statuses.len() - 1] == statuses.last());
        absent_status_counts_zero(before, status);
    }
}

/// How many of the torrents have the status with the number `code`.
pub open spec fn tally(statuses: Seq<Status>, code: int) -> nat {
    occurrences(statuses, Status::all()[code])
}

/// Whether a map from the numbers of the statuses to counts holds the tally
/// of the status with the number `code`: no entry where no torrent has the
/// status, else the number of the torrents that have it.
pub open spec fn holds_tally(counts: Map<u8, u64>, statuses: Seq<Status>, code: int) -> bool {
    if tally(statuses, code) > 0 {
        counts.contains_key(code as u8) && counts[code as u8] == tally(statuses, code)
    } else {
        !counts.contains_key(code as u8)
    }
}

/// Counts for every status how many of the torrents have it. The statuses
/// come in the order of [`Status::iterator`].
pub fn status_frequencies(statuses: &Vec<Status>) -> (r: Vec<(Status, u64)>)
    ensures
        r.len() == Status::all().len(),
        forall|k: int|
            0 <= k < r.len() ==> (#[trigger] r@[k]).0 == Status::all()[k] && r@[k].1
                == occurrences(statuses@, Status::all()[k]),
{
    broadcast use vstd::std_specs::hash::group_hash_axioms;

    let all = Status::iterator();
    let mut counts: HashMap<u8, u64> = HashMap::new();
    let mut i: usize = 0;
    assert(statuses@.take(0) =~= Seq::empty());
    while i < statuses.len()
        invariant
            i <= statuses.len(),
            forall|k: int|
                0 <= k < 7 ==> #[trigger] holds_tally(counts@, statuses@.take(i as int), k),
        decreases statuses.len() - i,
    {
        let status = statuses[i];
        let code = status.code();
        proof {
            let next = statuses@.take(i as int + 1);
            assert(next.drop_last() =~= statuses@.take(i as int));
            assert(next.last() == status);
            Status::all_in_code_order();
            lemma_occurrences_bounded(statuses@.take(i as int), status);
            assert(tally(statuses@.take(i as int), code as int) == occurrences(
                statuses@.take(i as int),
                status,
            ));
        }
        let ghost before = counts@;
        assert(holds_tally(before, statuses@.take(i as int), code as int));
        let count = match counts.get(&code) {
            Some(count) => *count + 1,
            None => 1,
        };
        counts.insert(code, count);
        proof {
            assert forall|k: int| 0 <= k < 7 implies #[trigger] holds_tally(
                counts@,
                statuses@.take(i as int + 1),
                k,
            ) by {
                assert(holds_tally(before, statuses@.take(i as int), k));
                if k != code as int {
                    assert(Status::all()[k] != status);
                }
            }
        }
        i += 1;
    }
    assert(statuses@.take(i as int) =~= statuses@);
    let mut frequencies: Vec<(Status, u64)> = Vec::new();
    let mut k: usize = 0;
    while k < 7
        invariant
            k <= 7,
            all@ == Status::all(),
            frequencies.len() == k,
            forall|j: int| 0 <= j < 7 ==> #[trigger] holds_tally(counts@, statuses@, j),
            forall|j: int|
                0 <= j < k ==> (#[trigger] frequencies@[j]).0 == Status::all()[j]
                    && frequencies@[j].1 == occurrences(statuses@, Status::all()[j]),
        decreases 7 - k,
    {
        let status = all[k];
        proof {
            Status::all_in_code_order();
            assert(holds_tally(counts@, statuses@, k as int));
            assert(tally(statuses@, k as int) == occurrences(statuses@, status));
        }
        let count = match counts.get(&status.code()) {
            Some(count) => *count,
            None => 0,
        };
        frequencies.push((status, count));
        k += 1;
    }
    frequencies
}

/// The name under which the bytes sent are counted.
pub open spec fn sent_flow() -> Seq<char> {
    "send"@
}

/// The name under which the bytes received are counted.
pub open spec fn received_flow() -> Seq<char> {
    "recv"@
}

/// The two counters of the statistics: the bytes sent, then the bytes
/// received, each under the name of its flow.
pub fn flow_counters(stats: &SessionStats) -> (r: Vec<(String, u64)>)
    ensures
        r.deep_view() == seq![
            (sent_flow(), stats.uploaded_bytes),
            (received_flow(), stats.downloaded_bytes),
        ],
{
    let counters = vec![
        ("send".to_owned(), stats.uploaded_bytes),
        ("recv".to_owned(), stats.downloaded_bytes),
    ];
    assert(counters.deep_view() =~= seq![
        (sent_flow(), stats.uploaded_bytes),
        (received_flow(), stats.downloaded_bytes),
    ]);
    counters
}

} // verus!
