//! Transcription history: entries are prepended newest-first by the
//! pipeline, and a reading of the store is sorted by timestamp, newest
//! first, whatever order the persisted file held.

use vstd::prelude::*;
use vstd::multiset::Multiset;

verus! {

broadcast use vstd::seq_lib::group_to_multiset_ensures;

/// One past transcription.
#[derive(Clone, Debug)]
pub struct HistoryEntry {
    /// The polished, final transcription text.
    pub text: String,
    /// Unix timestamp in milliseconds of the transcription.
    pub timestamp: i64,
    /// The raw transcription before polish or fusion, when it differed.
    pub raw_text: Option<String>,
}

/// Newest first: timestamps never increase along the sequence.
pub open spec fn sorted_newest_first(s: Seq<HistoryEntry>) -> bool {
    forall|i: int, j: int| 0 <= i < j < s.len() ==> s[i].timestamp >= s[j].timestamp
}

/// Prepends a new entry, newest first.
pub fn prepend_entry(entries: &mut Vec<HistoryEntry>, entry: HistoryEntry)
    ensures
        final(entries)@.len() == old(entries)@.len() + 1,
        final(entries)@[0] == entry,
        forall|j: int| 0 <= j < old(entries)@.len() ==> final(entries)@[j + 1] == old(entries)@[j],
{
    let ghost e = entry;
    entries.insert(0, entry);
    proof {
        assert(entries@ == old(entries)@.insert(0, e));
    }
}

/// Sorts the history newest first, keeping exactly the same entries.
pub fn sort_newest_first_exec(entries: &mut Vec<HistoryEntry>)
    ensures
        sorted_newest_first(final(entries)@),
        final(entries)@.to_multiset() == old(entries)@.to_multiset(),
{
    let ghost s = entries@;
    let mut out: Vec<HistoryEntry> = Vec::new();
    proof {
        assert(out@.to_multiset().add(entries@.to_multiset()) =~= s.to_multiset());
    }
    while entries.len() > 0
        invariant
            s == old(entries)@,
            sorted_newest_first(out@),
            out@.to_multiset().add(entries@.to_multiset()) == s.to_multiset(),
            forall|k: int, l: int|
                0 <= k < out@.len() && 0 <= l < entries@.len() ==> out@[k].timestamp
                    >= entries@[l].timestamp,
        decreases entries@.len(),
    {
        let mut mi: usize = 0;
        let mut k: usize = 1;
        while k < entries.len()
            invariant
                mi < k <= entries@.len(),
                forall|l: int| 0 <= l < k ==> entries@[mi as int].timestamp >= entries@[l].timestamp,
            decreases entries@.len() - k,
        {
            if entries[k].timestamp > entries[mi].timestamp {
                mi = k;
            }
            k = k + 1;
        }
        let ghost rem = entries@;
        let e = entries.remove(mi);
        proof {
            assert(e == rem[mi as int]);
            assert(entries@ == rem.remove(mi as int));
            assert(rem.remove(mi as int).to_multiset() =~= rem.to_multiset().remove(e));
        }
        let ghost prev = out@;
        out.push(e);
        proof {
            assert(out@ == prev.push(e));
            assert(prev.push(e).to_multiset() =~= prev.to_multiset().insert(e));
            assert(out@.to_multiset().add(entries@.to_multiset()) =~= s.to_multiset());
            assert forall|k2: int, l: int|
                0 <= k2 < out@.len() && 0 <= l < entries@.len() implies out@[k2].timestamp
                >= entries@[l].timestamp by {
                let lr = if l < mi as int {
                    l
                } else {
                    l + 1
                };
                assert(entries@[l] == rem[lr]);
                assert(e.timestamp >= rem[lr].timestamp);
                if k2 < prev.len() {
                    assert(prev[k2].timestamp >= rem[lr].timestamp);
                } else {
                    assert(out@[k2] == e);
                }
            }
            assert forall|i: int, j: int|
                0 <= i < j < out@.len() implies out@[i].timestamp >= out@[j].timestamp by {
                if j < prev.len() {
                } else {
                    assert(out@[j] == e);
                    assert(out@[i] == prev[i]);
                    assert(prev[i].timestamp >= rem[mi as int].timestamp);
                }
            }
        }
    }
    proof {
        assert(entries@.to_multiset() =~= Multiset::<HistoryEntry>::empty());
        assert(out@.to_multiset().add(Multiset::<HistoryEntry>::empty()) =~= out@.to_multiset());
    }
    *entries = out;
}

} // verus!
