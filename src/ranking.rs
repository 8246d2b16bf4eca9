use vstd::prelude::*;
use crate::metrics::ProcessInfo;

verus! {

/// Index `a` goes before index `b`: a higher usage first, equal usages in
/// the order of their indices.
pub open spec fn ranks_before(usage: Seq<u64>, a: int, b: int) -> bool {
    usage[a] > usage[b] || (usage[a] == usage[b] && a < b)
}

/// `order` lists every index of `usage` once, from the highest usage down,
/// equal usages in index order: the order of a stable sort by descending
/// usage.
pub open spec fn is_usage_ranking(usage: Seq<u64>, order: Seq<usize>) -> bool {
    &&& order.len() == usage.len()
    &&& forall|i: int| 0 <= i < order.len() ==> order[i] < usage.len()
    &&& forall|i: int, j: int| 0 <= i < j < order.len() ==> order[i] != order[j]
    &&& forall|i: int, j: int|
        0 <= i < j < order.len() ==> ranks_before(usage, order[i] as int, order[j] as int)
}

/// The processor usage of each process, in table order.
pub open spec fn usages_of(processes: Seq<ProcessInfo>) -> Seq<u64> {
    processes.map_values(|p: ProcessInfo| p.cpu_usage)
}

/// `r` is the first `top_count` entries (or all, where there are fewer) of
/// `table` in ranking order.
pub open spec fn is_top_selection(table: Seq<ProcessInfo>, top_count: int, r: Seq<ProcessInfo>) -> bool {
    &&& r.len() == if top_count < table.len() { top_count } else { table.len() as int }
    &&& exists|order: Seq<usize>|
        is_usage_ranking(usages_of(table), order) && forall|i: int|
            0 <= i < r.len() ==> r[i] == table[order[i] as int]
}

/// The indices of `usage` in ranking order.
pub fn rank_by_usage(usage: &Vec<u64>) -> (order: Vec<usize>)
    ensures
        is_usage_ranking(usage@, order@),
{
    let mut order: Vec<usize> = Vec::new();
    let mut k: usize = 0;
    while k < usage.len()
        invariant
            k <= usage@.len(),
            order@.len() == k,
            forall|i: int| 0 <= i < order@.len() ==> order@[i] < k,
            forall|i: int, j: int| 0 <= i < j < order@.len() ==> order@[i] != order@[j],
            forall|i: int, j: int|
                0 <= i < j < order@.len() ==> ranks_before(usage@, order@[i] as int, order@[j] as int),
        decreases usage@.len() - k,
    {
        let mut p: usize = 0;
        while p < order.len() && usage[order[p]] >= usage[k]
            invariant
                p <= order@.len(),
                k < usage@.len(),
                forall|i: int| 0 <= i < order@.len() ==> order@[i] < k,
                forall|q: int| 0 <= q < p ==> usage@[order@[q] as int] >= usage@[k as int],
            decreases order@.len() - p,
        {
            p = p + 1;
        }
        let ghost old_order = order@;
        proof {
            if p < old_order.len() {
                assert forall|q: int| p <= q < old_order.len() implies usage@[old_order[q] as int]
                    < usage@[k as int] by {
                    if q > p {
                        assert(ranks_before(usage@, old_order[p as int] as int, old_order[q] as int));
                    }
                }
            }
        }
        order.insert(p, k);
        assert forall|i: int, j: int| 0 <= i < j < order@.len() implies ranks_before(
            usage@,
            order@[i] as int,
            order@[j] as int,
        ) by {
            if j < p {
                assert(ranks_before(usage@, old_order[i] as int, old_order[j] as int));
            } else if j == p {
                assert(order@[i] == old_order[i]);
            } else if i < p {
                assert(ranks_before(usage@, old_order[i] as int, old_order[j - 1] as int));
            } else if i == p {
                assert(order@[j] == old_order[j - 1]);
            } else {
                assert(ranks_before(usage@, old_order[i - 1] as int, old_order[j - 1] as int));
            }
        }
        k = k + 1;
    }
    order
}

/// The `top_count` processes of highest processor usage, in ranking order:
/// the first entries of the table sorted stably by descending usage.
pub fn top_processes(processes: &Vec<ProcessInfo>, top_count: usize) -> (r: Vec<ProcessInfo>)
    ensures
        is_top_selection(processes@, top_count as int, r@),
        r@.len() <= top_count,
        forall|i: int, j: int| 0 <= i < j < r@.len() ==> r@[i].cpu_usage >= r@[j].cpu_usage,
{
    let mut usage: Vec<u64> = Vec::new();
    let mut i: usize = 0;
    while i < processes.len()
        invariant
            i <= processes@.len(),
            usage@ == usages_of(processes@).subrange(0, i as int),
        decreases processes@.len() - i,
    {
        usage.push(processes[i].cpu_usage);
        i = i + 1;
        assert(usage@ =~= usages_of(processes@).subrange(0, i as int));
    }
    assert(usage@ =~= usages_of(processes@));
    let order = rank_by_usage(&usage);
    let count: usize = if top_count < processes.len() { top_count } else { processes.len() };
    let mut r: Vec<ProcessInfo> = Vec::new();
    let mut n: usize = 0;
    while n < count
        invariant
            n <= count,
            count <= processes@.len(),
            is_usage_ranking(usage@, order@),
            usage@ == usages_of(processes@),
            r@.len() == n,
            forall|q: int| 0 <= q < n ==> r@[q] == processes@[order@[q] as int],
        decreases count - n,
    {
        r.push(processes[order[n]].duplicate());
        n = n + 1;
    }
    assert(is_usage_ranking(usages_of(processes@), order@));
    assert forall|a: int, b: int| 0 <= a < b < r@.len() implies r@[a].cpu_usage >= r@[b].cpu_usage by {
        assert(ranks_before(usage@, order@[a] as int, order@[b] as int));
    }
    r
}

} // verus!
