//! Process samples and top-N ranking.
//!
//! A sampling cycle hands the engine one [`ProcessInfo`] per live process;
//! [`rank`] orders them by descending CPU usage and keeps the busiest ten.
//! CPU usage is carried as integer hundredths of a percent.

use vstd::prelude::*;
use vstd::multiset::group_multiset_axioms;
use vstd::seq_lib::to_multiset_contains;
use vstd::seq_lib::to_multiset_insert;
use vstd::seq_lib::to_multiset_remove;

verus! {

/// Most entries a ranked snapshot keeps.
pub const SNAPSHOT_CAP: usize = 10;

/// One process observed by a sampling cycle; never mutated afterwards.
#[derive(Clone, Debug)]
pub struct ProcessInfo {
    /// Process name as the OS reports it.
    pub name: String,
    /// Process id.
    pub pid: u32,
    /// Resident memory in bytes, where the OS reports it.
    pub memory_usage: Option<u64>,
    /// CPU usage in hundredths of a percent (on a busy multi-core host this
    /// can exceed ten thousand).
    pub cpu_usage: u32,
}

/// Entries appear busiest first.
pub open spec fn sorted_desc(s: Seq<ProcessInfo>) -> bool {
    forall|i: int, j: int|
        0 <= i < j < s.len() ==> #[trigger] s[i].cpu_usage >= #[trigger] s[j].cpu_usage
}

/// How many entries a snapshot of a table with `n` processes has.
pub open spec fn snapshot_len(n: nat) -> nat {
    if n < SNAPSHOT_CAP as nat {
        n
    } else {
        SNAPSHOT_CAP as nat
    }
}

/// Sorts the table in place, busiest process first.
///
/// The result is a permutation of the input: same multiset of entries.  Ties
/// keep no particular order, but the routine is deterministic.
pub fn sort_by_cpu_desc(v: &mut Vec<ProcessInfo>)
    ensures
        final(v)@.len() == old(v)@.len(),
        final(v)@.to_multiset() == old(v)@.to_multiset(),
        sorted_desc(final(v)@),
{
    broadcast use group_multiset_axioms;

    let ghost orig = v@;
    let n = v.len();
    let mut i: usize = 1;
    while i < n
        invariant
            n == v@.len(),
            n == orig.len(),
            1 <= i,
            i <= n || n == 0,
            v@.to_multiset() == orig.to_multiset(),
            n > 0 ==> sorted_desc(v@.take(i as int)),
        decreases n - i,
    {
        let ghost pre = v@;
        let item = v.remove(i);
        let ghost mid = v@;
        proof {
            assert(mid =~= pre.take(i as int) + pre.skip(i + 1));
            assert(forall|k: int| 0 <= k < i ==> mid[k] == pre[k]);
            assert(pre[i as int] == item);
            assert(pre.contains(item));
            to_multiset_contains(pre, item);
            to_multiset_remove(pre, i as int);
            assert(mid.to_multiset() == pre.to_multiset().remove(item));
        }
        let mut j: usize = i;
        while j > 0 && v[j - 1].cpu_usage < item.cpu_usage
            invariant
                j <= i,
                i < n,
                n == mid.len() + 1,
                v@ == mid,
                forall|k: int| j <= k < i ==> #[trigger] mid[k].cpu_usage < item.cpu_usage,
            decreases j,
        {
            j = j - 1;
        }
        v.insert(j, item);
        proof {
            assert(v@ == mid.insert(j as int, item));
            assert(v@.to_multiset() == orig.to_multiset()) by {
                to_multiset_contains(pre, item);
                to_multiset_remove(pre, i as int);
                to_multiset_insert(mid, j as int, item);
                assert(mid.to_multiset() == pre.to_multiset().remove(item));
                assert(v@.to_multiset() == mid.to_multiset().insert(item));
                assert(pre.to_multiset().remove(item).insert(item) =~= pre.to_multiset());
            }
            assert(sorted_desc(v@.take(i + 1 as int))) by {
                mid.insert_ensures(j as int, item);
                let newp = v@.take(i + 1 as int);
                assert(forall|k: int| 0 <= k < j ==> newp[k] == mid[k]);
                assert(newp[j as int] == item);
                assert(forall|k: int| j < k <= i ==> newp[k] == mid[k - 1]);
                assert(forall|a: int, b: int|
                    0 <= a < b <= i ==> newp[a].cpu_usage >= newp[b].cpu_usage) by {
                    assert(forall|a: int, b: int|
                        0 <= a < b < i ==> #[trigger] mid[a].cpu_usage
                            >= #[trigger] mid[b].cpu_usage);
                    assert(j > 0 ==> mid[j - 1].cpu_usage >= item.cpu_usage);
                }
            }
        }
        i = i + 1;
    }
    proof {
        if n > 0 {
            assert(v@.take(n as int) =~= v@);
        }
    }
}

/// Ranks a process table: sorts it busiest first and keeps at most
/// [`SNAPSHOT_CAP`] entries.
///
/// The snapshot has exactly `min(N, 10)` entries for a table of `N`, is
/// sorted by descending CPU usage, and is a prefix of some descending
/// ordering of the whole table.
pub fn rank(table: Vec<ProcessInfo>) -> (r: Vec<ProcessInfo>)
    ensures
        r@.len() == snapshot_len(table@.len()),
        sorted_desc(r@),
        exists|s: Seq<ProcessInfo>|
            (#[trigger] s.to_multiset()) == table@.to_multiset() && sorted_desc(s) && r@ == s.take(
                snapshot_len(table@.len()) as int,
            ),
{
    let ghost input = table@;
    let mut v = table;
    sort_by_cpu_desc(&mut v);
    let ghost full = v@;
    v.truncate(SNAPSHOT_CAP);
    proof {
        if v@.len() < full.len() {
            assert(v@ == full.take(SNAPSHOT_CAP as int));
        } else {
            assert(v@ =~= full.take(full.len() as int));
        }
        assert(full.to_multiset() == input.to_multiset() && sorted_desc(full) && v@ == full.take(
            snapshot_len(input.len()) as int,
        ));
        assert(forall|i: int, j: int|
            0 <= i < j < v@.len() ==> #[trigger] v@[i].cpu_usage >= #[trigger] v@[j].cpu_usage);
    }
    v
}

} // verus!
