//! Ordering of selected rows by an instant, earliest first.

use vstd::prelude::*;

verus! {

/// The instant of a selected position (`keys[j]` is `None` for a row that is
/// not selected).
pub open spec fn key_of(keys: Seq<Option<i64>>, j: int) -> i64 {
    keys[j]->0
}

/// Position `a` of the plan comes strictly before position `b`: by instant,
/// and between equal instants by row index.
pub open spec fn precedes(keys: Seq<Option<i64>>, plan: Seq<usize>, a: int, b: int) -> bool {
    key_of(keys, plan[a] as int) < key_of(keys, plan[b] as int) || (key_of(keys, plan[a] as int)
        == key_of(keys, plan[b] as int) && plan[a] < plan[b])
}

/// `plan` lists every selected row exactly once and no other, earliest
/// instant first, rows with equal instants in their input order.
pub open spec fn is_time_order(keys: Seq<Option<i64>>, plan: Seq<usize>) -> bool {
    &&& forall|k: int|
        0 <= k < plan.len() ==> (plan[k] as int) < keys.len() && (#[trigger] keys[plan[k] as int])
            is Some
    &&& forall|j: int| 0 <= j < keys.len() && (#[trigger] keys[j]) is Some ==> plan.contains(j as usize)
    &&& forall|a: int, b: int| 0 <= a < b < plan.len() ==> #[trigger] precedes(keys, plan, a, b)
}

fn selected_key(keys: &Vec<Option<i64>>, j: usize) -> (r: i64)
    requires
        j < keys.len(),
        keys@[j as int] is Some,
    ensures
        r == key_of(keys@, j as int),
{
    match keys[j] {
        Some(u) => u,
        None => 0,
    }
}

/// The positions of the selected rows, ordered by instant (stable).
pub fn order_by_time(keys: &Vec<Option<i64>>) -> (plan: Vec<usize>)
    ensures
        is_time_order(keys@, plan@),
{
    let mut plan: Vec<usize> = Vec::new();
    let mut i: usize = 0;
    while i < keys.len()
        invariant
            i <= keys.len(),
            forall|k: int|
                0 <= k < plan.len() ==> (plan[k] as int) < i && (#[trigger] keys@[plan[k] as int])
                    is Some,
            forall|j: int| 0 <= j < i && (#[trigger] keys@[j]) is Some ==> plan@.contains(j as usize),
            forall|a: int, b: int| 0 <= a < b < plan.len() ==> #[trigger] precedes(keys@, plan@, a, b),
        decreases keys.len() - i,
    {
        match keys[i] {
            None => {},
            Some(t) => {
                let mut p: usize = 0;
                while p < plan.len() && selected_key(keys, plan[p]) <= t
                    invariant
                        i < keys.len(),
                        p <= plan.len(),
                        forall|k: int|
                            0 <= k < plan.len() ==> (plan[k] as int) < i && (#[trigger] keys@[plan[k] as int]) is Some,
                        forall|a: int, b: int|
                            0 <= a < b < plan.len() ==> #[trigger] precedes(keys@, plan@, a, b),
                        forall|k: int| 0 <= k < p ==> key_of(keys@, #[trigger] plan[k] as int) <= t,
                    decreases plan.len() - p,
                {
                    p = p + 1;
                }
                let ghost old_plan = plan@;
                proof {
                    assert forall|k: int| p <= k < old_plan.len() implies key_of(keys@, #[trigger] old_plan[k] as int) > t by {
                        assert(key_of(keys@, old_plan[p as int] as int) > t);
                        if k > p {
                            assert(precedes(keys@, old_plan, p as int, k));
                        }
                    }
                }
                plan.insert(p, i);
                proof {
                    assert(plan@ == old_plan.insert(p as int, i));
                    assert forall|j: int| 0 <= j < i + 1 && (#[trigger] keys@[j]) is Some implies plan@.contains(j as usize) by {
                        if j == i {
                            assert(plan@[p as int] == i);
                        } else {
                            assert(old_plan.contains(j as usize));
                            let k = choose|k: int| 0 <= k < old_plan.len() && old_plan[k] == j as usize;
                            if k < p {
                                assert(plan@[k] == j as usize);
                            } else {
                                assert(plan@[k + 1] == j as usize);
                            }
                        }
                    }
                    assert forall|a: int, b: int| 0 <= a < b < plan.len() implies #[trigger] precedes(keys@, plan@, a, b) by {
                        if b < p {
                            assert(precedes(keys@, old_plan, a, b));
                        } else if b == p {
                            assert(key_of(keys@, old_plan[a] as int) <= t);
                        } else if a < p {
                            assert(precedes(keys@, old_plan, a, b - 1));
                        } else if a == p {
                            assert(key_of(keys@, old_plan[b - 1] as int) > t);
                        } else {
                            assert(precedes(keys@, old_plan, a - 1, b - 1));
                        }
                    }
                }
            },
        }
        i = i + 1;
    }
    plan
}

} // verus!
