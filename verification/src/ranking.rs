use vstd::prelude::*;

verus! {

/// How many processes the performance panel lists.
pub const MAX_LISTED_PROCESSES: usize = 8;

/// What the busiest-process list is ordered by: a CPU load key whose integer
/// order is the total order of the load values, and the resident memory.
#[derive(Debug, Clone, Copy, PartialEq, Eq, Structural)]
pub struct ProcessKey {
    pub cpu_order: i32,
    pub memory_bytes: u64,
}

/// Process `a` is listed before process `b`: it has the higher CPU load, or
/// the same load and more memory, or both equal and it came first.
pub open spec fn ranks_before(keys: Seq<ProcessKey>, a: usize, b: usize) -> bool {
    ||| keys[a as int].cpu_order > keys[b as int].cpu_order
    ||| keys[a as int].cpu_order == keys[b as int].cpu_order && keys[a as int].memory_bytes
        > keys[b as int].memory_bytes
    ||| keys[a as int].cpu_order == keys[b as int].cpu_order && keys[a as int].memory_bytes
        == keys[b as int].memory_bytes && a < b
}

/// The indices are listed in ranking order.
pub open spec fn in_rank_order(keys: Seq<ProcessKey>, listed: Seq<usize>) -> bool {
    forall|q: int, r: int|
        0 <= q < r < listed.len() ==> ranks_before(keys, #[trigger] listed[q], #[trigger] listed[r])
}

/// Process `k` ranks after every listed one.
pub open spec fn ranks_after_all(keys: Seq<ProcessKey>, listed: Seq<usize>, k: usize) -> bool {
    forall|q: int| 0 <= q < listed.len() ==> ranks_before(keys, #[trigger] listed[q], k)
}

/// `listed` holds, in ranking order, the `min(8, count)` best ranked of the
/// processes `0 .. count`.
pub open spec fn is_top_of(keys: Seq<ProcessKey>, listed: Seq<usize>, count: int) -> bool {
    &&& listed.len() == (if count < MAX_LISTED_PROCESSES {
        count
    } else {
        MAX_LISTED_PROCESSES as int
    })
    &&& forall|q: int| 0 <= q < listed.len() ==> #[trigger] listed[q] < count
    &&& in_rank_order(keys, listed)
    &&& forall|k: usize| k < count && !listed.contains(k) ==> #[trigger] ranks_after_all(keys, listed, k)
    &&& count <= MAX_LISTED_PROCESSES ==> forall|k: usize| k < count ==> #[trigger] listed.contains(k)
}

/// Decides `ranks_before`.
fn rank_before(keys: &Vec<ProcessKey>, a: usize, b: usize) -> (before: bool)
    requires
        a < keys@.len(),
        b < keys@.len(),
    ensures
        before == ranks_before(keys@, a, b),
{
    let ka = keys[a];
    let kb = keys[b];
    ka.cpu_order > kb.cpu_order || (ka.cpu_order == kb.cpu_order && ka.memory_bytes > kb.memory_bytes)
        || (ka.cpu_order == kb.cpu_order && ka.memory_bytes == kb.memory_bytes && a < b)
}

/// Putting process `i` at position `p` of the list of the best of `0 .. i`,
/// and dropping what goes beyond 8, lists the best of `0 .. i + 1`.
proof fn lemma_insert_ranked(keys: Seq<ProcessKey>, listed: Seq<usize>, i: usize, p: int)
    requires
        i < keys.len(),
        is_top_of(keys, listed, i as int),
        0 <= p <= listed.len(),
        p < MAX_LISTED_PROCESSES,
        forall|q: int| 0 <= q < p ==> ranks_before(keys, #[trigger] listed[q], i),
        p < listed.len() ==> ranks_before(keys, i, listed[p]),
    ensures
        is_top_of(
            keys,
            if listed.len() < MAX_LISTED_PROCESSES {
                listed.insert(p, i)
            } else {
                listed.insert(p, i).subrange(0, MAX_LISTED_PROCESSES as int)
            },
            i + 1,
        ),
{
    let grown = listed.insert(p, i);
    let next = if listed.len() < MAX_LISTED_PROCESSES {
        grown
    } else {
        grown.subrange(0, MAX_LISTED_PROCESSES as int)
    };
    assert forall|r: int| p < r < grown.len() implies ranks_before(keys, i, #[trigger] grown[r]) by {
        assert(grown[r] == listed[r - 1]);
        if r - 1 > p {
            assert(ranks_before(keys, listed[p], listed[r - 1]));
        }
    }
    assert(in_rank_order(keys, grown)) by {
        assert forall|q: int, r: int| 0 <= q < r < grown.len() implies ranks_before(
            keys,
            #[trigger] grown[q],
            #[trigger] grown[r],
        ) by {
            if q < p && r < p {
                assert(grown[q] == listed[q] && grown[r] == listed[r]);
            } else if q < p && r == p {
                assert(grown[q] == listed[q]);
            } else if q < p && r > p {
                assert(grown[q] == listed[q] && grown[r] == listed[r - 1]);
            } else if q == p {
            } else {
                assert(grown[q] == listed[q - 1] && grown[r] == listed[r - 1]);
            }
        }
    }
    assert(in_rank_order(keys, next));
    assert forall|q: int| 0 <= q < next.len() implies #[trigger] next[q] < i + 1 by {
        if q < p {
            assert(next[q] == listed[q]);
        } else if q > p {
            assert(next[q] == listed[q - 1]);
        }
    }
    assert forall|k: usize| k < i + 1 && !next.contains(k) implies #[trigger] ranks_after_all(
        keys,
        next,
        k,
    ) by {
        if k == i {
            assert(next[p] == i);
        } else if listed.contains(k) {
            // k was listed and has been dropped: it was the last of eight
            let j = choose|j: int| 0 <= j < listed.len() && listed[j] == k;
            if listed.len() < MAX_LISTED_PROCESSES {
                assert(grown[if j < p { j } else { j + 1 }] == k);
            } else {
                if j < p {
                    assert(next[j] == k);
                } else if j + 1 < MAX_LISTED_PROCESSES {
                    assert(next[j + 1] == k);
                }
                assert(j == MAX_LISTED_PROCESSES - 1);
                assert(grown[MAX_LISTED_PROCESSES as int] == k);
                assert forall|q: int| 0 <= q < next.len() implies ranks_before(
                    keys,
                    #[trigger] next[q],
                    k,
                ) by {
                    assert(next[q] == grown[q]);
                }
            }
        } else {
            assert(ranks_after_all(keys, listed, k));
            assert(listed.len() == MAX_LISTED_PROCESSES) by {
                if (i as int) <= MAX_LISTED_PROCESSES {
                    assert(listed.contains(k));
                }
            }
            assert forall|q: int| 0 <= q < next.len() implies ranks_before(
                keys,
                #[trigger] next[q],
                k,
            ) by {
                if q < p {
                    assert(next[q] == listed[q]);
                } else if q == p {
                    assert(ranks_before(keys, listed[p], k));
                } else {
                    assert(next[q] == listed[q - 1]);
                }
            }
        }
    }
    assert((i + 1) as int <= MAX_LISTED_PROCESSES ==> forall|k: usize|
        k < i + 1 ==> #[trigger] next.contains(k)) by {
        if (i + 1) as int <= MAX_LISTED_PROCESSES {
            assert forall|k: usize| k < i + 1 implies #[trigger] next.contains(k) by {
                if k == i {
                    assert(next[p] == i);
                } else {
                    assert(listed.contains(k));
                    let j = choose|j: int| 0 <= j < listed.len() && listed[j] == k;
                    assert(next[if j < p { j } else { j + 1 }] == k);
                }
            }
        }
    }
}

/// The indices of the (at most) 8 busiest processes, busiest first: higher
/// CPU load first, then more memory, then the earlier index, as a stable
/// descending sort followed by a cut to 8 entries lists them.
pub fn top_processes(keys: &Vec<ProcessKey>) -> (listed: Vec<usize>)
    ensures
        is_top_of(keys@, listed@, keys@.len() as int),
{
    let mut top: Vec<usize> = Vec::new();
    let mut i: usize = 0;
    while i < keys.len()
        invariant
            0 <= i <= keys@.len(),
            is_top_of(keys@, top@, i as int),
        decreases keys@.len() - i,
    {
        let mut p: usize = 0;
        while p < top.len() && rank_before(keys, top[p], i)
            invariant
                0 <= p <= top@.len(),
                i < keys@.len(),
                is_top_of(keys@, top@, i as int),
                forall|q: int| 0 <= q < p ==> ranks_before(keys@, #[trigger] top@[q], i),
            decreases top@.len() - p,
        {
            p = p + 1;
        }
        if p < MAX_LISTED_PROCESSES {
            proof {
                if p < top@.len() {
                    assert(top@[p as int] < i);
                }
                lemma_insert_ranked(keys@, top@, i, p as int);
            }
            let full = top.len() >= MAX_LISTED_PROCESSES;
            top.insert(p, i);
            if full {
                top.truncate(MAX_LISTED_PROCESSES);
            }
        } else {
            proof {
                assert(ranks_after_all(keys@, top@, i));
                assert(!top@.contains(i)) by {
                    if top@.contains(i) {
                        let j = choose|j: int| 0 <= j < top@.len() && top@[j] == i;
                        assert(top@[j] < i);
                    }
                }
            }
        }
        i = i + 1;
    }
    top
}

} // verus!
