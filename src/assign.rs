use vstd::prelude::*;

use crate::geometry::Output;

verus! {

/// Indices of the enabled outputs among the first `n`, in order.
pub open spec fn enabled_upto(ms: Seq<Output>, n: int) -> Seq<usize>
    decreases n,
{
    if n <= 0 || n > ms.len() {
        Seq::empty()
    } else if ms[n - 1].enabled {
        enabled_upto(ms, n - 1).push((n - 1) as usize)
    } else {
        enabled_upto(ms, n - 1)
    }
}

/// Indices of the enabled outputs, in order.
pub open spec fn enabled_indices(ms: Seq<Output>) -> Seq<usize> {
    enabled_upto(ms, ms.len() as int)
}

/// Position of the first `x` in `en` at index `i` or after.
pub open spec fn position_from(en: Seq<usize>, x: usize, i: int) -> Option<int>
    decreases en.len() - i,
{
    if i < 0 || i >= en.len() {
        None
    } else if en[i] == x {
        Some(i)
    } else {
        position_from(en, x, i + 1)
    }
}

/// One step of the assignment cycle over the enabled indices `en`: from
/// unassigned to the first (forward) or last (backward) entry; from an entry
/// to its neighbour, or to unassigned past either end; from an index not in
/// `en` to unassigned.
pub open spec fn cycled(en: Seq<usize>, cur: Option<usize>, forward: bool) -> Option<usize> {
    match cur {
        None => if forward {
            Some(en[0])
        } else {
            Some(en.last())
        },
        Some(idx) => match position_from(en, idx, 0) {
            Some(p) => if forward {
                if p + 1 >= en.len() {
                    None
                } else {
                    Some(en[p + 1])
                }
            } else if p == 0 {
                None
            } else {
                Some(en[p - 1])
            },
            None => None,
        },
    }
}

/// `k` forward steps of the cycle from `cur`.
pub open spec fn cycled_forward_n(en: Seq<usize>, cur: Option<usize>, k: nat) -> Option<usize>
    decreases k,
{
    if k == 0 {
        cur
    } else {
        cycled(en, cycled_forward_n(en, cur, (k - 1) as nat), true)
    }
}

/// Indices of the enabled outputs (see `enabled_indices`).
pub fn enabled_monitor_indices(ms: &Vec<Output>) -> (r: Vec<usize>)
    ensures
        r@ == enabled_indices(ms@),
{
    let mut r: Vec<usize> = Vec::new();
    let mut i: usize = 0;
    while i < ms.len()
        invariant
            i <= ms@.len(),
            r@ == enabled_upto(ms@, i as int),
        decreases ms@.len() - i,
    {
        if ms[i].enabled {
            r.push(i);
        }
        i = i + 1;
    }
    r
}

/// One step of the assignment cycle (see `cycled`).
pub fn cycle_assignment(en: &Vec<usize>, cur: Option<usize>, forward: bool) -> (r: Option<usize>)
    requires
        en@.len() > 0,
    ensures
        r == cycled(en@, cur, forward),
{
    match cur {
        None => if forward {
            Some(en[0])
        } else {
            Some(en[en.len() - 1])
        },
        Some(idx) => {
            let mut p: usize = 0;
            while p < en.len()
                invariant
                    p <= en@.len(),
                    cur == Some(idx),
                    position_from(en@, idx, 0) == position_from(en@, idx, p as int),
                decreases en@.len() - p,
            {
                if en[p] == idx {
                    assert(position_from(en@, idx, p as int) == Some(p as int));
                    let r = if forward {
                        if p + 1 >= en.len() {
                            None
                        } else {
                            Some(en[p + 1])
                        }
                    } else if p == 0 {
                        None
                    } else {
                        Some(en[p - 1])
                    };
                    assert(cycled(en@, cur, forward) == r);
                    return r;
                }
                p = p + 1;
            }
            None
        },
    }
}

/// The enabled indices are strictly increasing and below `n`.
proof fn lemma_enabled_upto_increasing(ms: Seq<Output>, n: int)
    requires
        0 <= n <= ms.len(),
        ms.len() <= usize::MAX,
    ensures
        forall|a: int, b: int|
            0 <= a < b < enabled_upto(ms, n).len() ==> enabled_upto(ms, n)[a] < enabled_upto(
                ms,
                n,
            )[b],
        forall|a: int| 0 <= a < enabled_upto(ms, n).len() ==> enabled_upto(ms, n)[a] < n,
    decreases n,
{
    if n > 0 {
        lemma_enabled_upto_increasing(ms, n - 1);
        let prev = enabled_upto(ms, n - 1);
        if ms[n - 1].enabled {
            assert(enabled_upto(ms, n) == prev.push((n - 1) as usize));
        } else {
            assert(enabled_upto(ms, n) == prev);
        }
    }
}

/// In a sequence without repeats, an entry is found at its own position.
proof fn lemma_position_of_entry(en: Seq<usize>, j: int, i: int)
    requires
        0 <= i <= j < en.len(),
        forall|a: int, b: int| 0 <= a < b < en.len() ==> en[a] < en[b],
    ensures
        position_from(en, en[j], i) == Some(j),
    decreases j - i,
{
    if i < j {
        lemma_position_of_entry(en, j, i + 1);
    }
}

/// Cycling forward from unassigned visits every enabled output in order,
/// and one step more returns to unassigned; cycling backward from
/// unassigned lands on the last enabled output.
pub proof fn lemma_cycle_round_trip(ms: Seq<Output>)
    requires
        enabled_indices(ms).len() > 0,
        ms.len() <= usize::MAX,
    ensures
        forall|k: nat|
            1 <= k <= enabled_indices(ms).len() ==> #[trigger] cycled_forward_n(
                enabled_indices(ms),
                None,
                k,
            ) == Some(enabled_indices(ms)[k - 1]),
        cycled_forward_n(enabled_indices(ms), None, enabled_indices(ms).len() + 1) is None,
        cycled(enabled_indices(ms), None, false) == Some(enabled_indices(ms).last()),
{
    let en = enabled_indices(ms);
    lemma_enabled_upto_increasing(ms, ms.len() as int);
    assert forall|k: nat| 1 <= k <= en.len() implies #[trigger] cycled_forward_n(en, None, k) == Some(
        en[k - 1],
    ) by {
        lemma_forward_steps(en, k);
    }
    lemma_forward_steps(en, en.len());
    lemma_position_of_entry(en, en.len() - 1, 0);
}

proof fn lemma_forward_steps(en: Seq<usize>, k: nat)
    requires
        1 <= k <= en.len(),
        forall|a: int, b: int| 0 <= a < b < en.len() ==> en[a] < en[b],
    ensures
        cycled_forward_n(en, None, k) == Some(en[k - 1]),
    decreases k,
{
    assert(cycled_forward_n(en, None, 0) is None);
    if k > 1 {
        lemma_forward_steps(en, (k - 1) as nat);
        lemma_position_of_entry(en, k - 2, 0);
        assert(cycled_forward_n(en, None, k) == cycled(en, Some(en[k - 2]), true));
    } else {
        assert(cycled_forward_n(en, None, 1) == cycled(en, None, true));
    }
}

} // verus!
