use vstd::prelude::*;

verus! {

/// `a` is an order-preserving subsequence of `b`.
pub open spec fn subsequence_of(a: Seq<u16>, b: Seq<u16>) -> bool
    decreases a.len() + b.len(),
{
    if a.len() == 0 {
        true
    } else if b.len() == 0 {
        false
    } else if a[0] == b[0] {
        subsequence_of(a.skip(1), b.skip(1))
    } else {
        subsequence_of(a, b.skip(1))
    }
}

/// Every element of a subsequence occurs in the underlying sequence.
pub proof fn lemma_subsequence_contains(a: Seq<u16>, b: Seq<u16>)
    requires
        subsequence_of(a, b),
    ensures
        forall|i: int| 0 <= i < a.len() ==> b.contains(a[i]),
    decreases a.len() + b.len(),
{
    if a.len() > 0 && b.len() > 0 {
        if a[0] == b[0] {
            lemma_subsequence_contains(a.skip(1), b.skip(1));
            assert forall|i: int| 0 <= i < a.len() implies b.contains(a[i]) by {
                if i == 0 {
                    assert(b[0] == a[0]);
                } else {
                    assert(b.skip(1).contains(a.skip(1)[i - 1]));
                    let w = choose|w: int| 0 <= w < b.skip(1).len() && b.skip(1)[w] == a.skip(1)[i
                        - 1];
                    assert(b[w + 1] == a[i]);
                }
            }
        } else {
            lemma_subsequence_contains(a, b.skip(1));
            assert forall|i: int| 0 <= i < a.len() implies b.contains(a[i]) by {
                assert(b.skip(1).contains(a[i]));
                let w = choose|w: int| 0 <= w < b.skip(1).len() && b.skip(1)[w] == a[i];
                assert(b[w + 1] == a[i]);
            }
        }
    }
}

/// Model of one scan: the candidates, in their given order, that lie
/// in the set `free` of ports the machine would let us bind.
pub open spec fn free_of(candidates: Seq<u16>, free: Set<u16>) -> Seq<u16>
    decreases candidates.len(),
{
    if candidates.len() == 0 {
        Seq::empty()
    } else {
        let rest = free_of(candidates.drop_last(), free);
        if free.contains(candidates.last()) {
            rest.push(candidates.last())
        } else {
            rest
        }
    }
}

/// Port selection is "last free candidate wins": for every candidate
/// list with at least one free port, the scan's last survivor is a free
/// candidate after which no later candidate is free — never merely the
/// first available one.
pub proof fn lemma_selects_last_free(candidates: Seq<u16>, free: Set<u16>)
    requires
        exists|i: int| 0 <= i < candidates.len() && free.contains(candidates[i]),
    ensures
        free_of(candidates, free).len() > 0,
        exists|i: int|
            {
                &&& 0 <= i < candidates.len()
                &&& free.contains(candidates[i])
                &&& free_of(candidates, free).last() == candidates[i]
                &&& forall|j: int| i < j < candidates.len() ==> !free.contains(candidates[j])
            },
    decreases candidates.len(),
{
    let picked = free_of(candidates, free);
    let n = candidates.len() as int;
    if free.contains(candidates.last()) {
        assert(picked.last() == candidates.last());
        assert({
            &&& 0 <= n - 1 < candidates.len()
            &&& free.contains(candidates[n - 1])
            &&& free_of(candidates, free).last() == candidates[n - 1]
            &&& forall|j: int| n - 1 < j < candidates.len() ==> !free.contains(candidates[j])
        });
    } else {
        let head = candidates.drop_last();
        let w = choose|i: int| 0 <= i < candidates.len() && free.contains(candidates[i]);
        assert(w < n - 1);
        assert(head[w] == candidates[w]);
        lemma_selects_last_free(head, free);
        let i = choose|i: int|
            {
                &&& 0 <= i < head.len()
                &&& free.contains(head[i])
                &&& free_of(head, free).last() == head[i]
                &&& forall|j: int| i < j < head.len() ==> !free.contains(head[j])
            };
        assert(picked == free_of(head, free));
        assert(head[i] == candidates[i]);
        assert forall|j: int| i < j < candidates.len() implies !free.contains(candidates[j]) by {
            if j < n - 1 {
                assert(head[j] == candidates[j]);
                assert(!free.contains(head[j]));
            } else {
                assert(candidates[j] == candidates.last());
            }
        }
        assert({
            &&& 0 <= i < candidates.len()
            &&& free.contains(candidates[i])
            &&& free_of(candidates, free).last() == candidates[i]
            &&& forall|j: int| i < j < candidates.len() ==> !free.contains(candidates[j])
        });
    }
}

/// With no free candidate at all the scan keeps nothing, so selection
/// yields no port.
pub proof fn lemma_no_free_no_port(candidates: Seq<u16>, free: Set<u16>)
    requires
        forall|i: int| 0 <= i < candidates.len() ==> !free.contains(candidates[i]),
    ensures
        free_of(candidates, free).len() == 0,
    decreases candidates.len(),
{
    if candidates.len() > 0 {
        let head = candidates.drop_last();
        assert(forall|i: int| 0 <= i < head.len() ==> head[i] == candidates[i]);
        lemma_no_free_no_port(head, free);
    }
}

/// Relies on `port_scanner::local_ports_available`: it walks the given
/// candidates in order and keeps exactly those it could bind locally,
/// so every outcome is an order-preserving subsequence of the
/// candidates.  Which candidates survive depends on the machine, so no
/// more is stated.
#[verifier::external_body]
fn scan_available(candidates: &Vec<u16>) -> (r: Vec<u16>)
    ensures
        subsequence_of(r@, candidates@),
{
    port_scanner::local_ports_available(candidates.clone())
}

/// Chooses the listening port from the ports that were found free.
///
/// The candidate list is scanned in priority order and the last free
/// candidate wins, so the result is the last element of the free list.
pub fn select_port(free: &Vec<u16>) -> (r: Option<u16>)
    ensures
        (free@.len() == 0 <==> r is None),
        free@.len() > 0 ==> r == Some(free@.last()),
{
    if free.len() == 0 {
        None
    } else {
        Some(free[free.len() - 1])
    }
}

/// Scans the candidate list against this machine and selects the last
/// candidate that was free; yields nothing exactly when the scan found
/// no free candidate.
pub fn negotiate_port(candidates: &Vec<u16>) -> (r: Option<u16>)
    ensures
        (r matches Some(p) ==> candidates@.contains(p)),
{
    let available = scan_available(candidates);
    proof {
        lemma_subsequence_contains(available@, candidates@);
    }
    select_port(&available)
}

} // verus!
