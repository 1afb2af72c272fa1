//! Runs of requests against the allocator's model, and what holds of them.
use vstd::prelude::*;
use crate::align::{lemma_round_up, round_up};
use crate::bump::HeapState;

verus! {

/// One request to the allocator.
pub enum Request {
    Allocate { size: nat, align: nat },
    Deallocate,
}

/// The state after one request.
pub open spec fn step(s: HeapState, req: Request) -> HeapState {
    match req {
        Request::Allocate { size, align } => s.after_alloc(size, align),
        Request::Deallocate => s.after_dealloc(),
    }
}

/// Whether the request is granted in state `s`.
pub open spec fn granted(s: HeapState, req: Request) -> bool {
    match req {
        Request::Allocate { size, align } => s.can_alloc(size, align),
        Request::Deallocate => s.can_dealloc(),
    }
}

/// The state after the requests of `reqs`, in order.
pub open spec fn run(s: HeapState, reqs: Seq<Request>) -> HeapState
    decreases reqs.len(),
{
    if reqs.len() == 0 {
        s
    } else {
        step(run(s, reqs.drop_last()), reqs.last())
    }
}

/// How many allocations of `reqs` were granted, started from `s`.
pub open spec fn allocations_granted(s: HeapState, reqs: Seq<Request>) -> nat
    decreases reqs.len(),
{
    if reqs.len() == 0 {
        0
    } else {
        let before = run(s, reqs.drop_last());
        let last = reqs.last();
        allocations_granted(s, reqs.drop_last()) + if last is Allocate && granted(before, last) {
            1nat
        } else {
            0nat
        }
    }
}

/// How many frees of `reqs` were accepted, started from `s`.
pub open spec fn frees_accepted(s: HeapState, reqs: Seq<Request>) -> nat
    decreases reqs.len(),
{
    if reqs.len() == 0 {
        0
    } else {
        let before = run(s, reqs.drop_last());
        let last = reqs.last();
        frees_accepted(s, reqs.drop_last()) + if last is Deallocate && granted(before, last) {
            1nat
        } else {
            0nat
        }
    }
}

/// Every allocation request of `reqs` asks for a nonzero alignment.
pub open spec fn aligned_requests(reqs: Seq<Request>) -> bool {
    forall|i: int|
        0 <= i < reqs.len() ==> (#[trigger] reqs[i] matches Request::Allocate { align, .. } ==> align
            > 0)
}

/// One request keeps the model well formed.
pub proof fn lemma_step_wf(s: HeapState, req: Request)
    requires
        s.wf(),
        req matches Request::Allocate { align, .. } ==> align > 0,
    ensures
        step(s, req).wf(),
{
    if let Request::Allocate { size, align } = req {
        lemma_round_up(s.next as int, align as int);
    }
}

/// Every run of requests keeps the model well formed, and the count of live
/// allocations is the count at the start, plus the allocations granted, less
/// the frees accepted.
pub proof fn lemma_run(s: HeapState, reqs: Seq<Request>)
    requires
        s.wf(),
        aligned_requests(reqs),
    ensures
        run(s, reqs).wf(),
        run(s, reqs).heap_start == s.heap_start,
        run(s, reqs).heap_end == s.heap_end,
        run(s, reqs).allocations == s.allocations + allocations_granted(s, reqs) - frees_accepted(
            s,
            reqs,
        ),
    decreases reqs.len(),
{
    if reqs.len() > 0 {
        let init = reqs.drop_last();
        assert forall|i: int| 0 <= i < init.len() implies (#[trigger] init[i] matches Request::Allocate {
            align,
            ..
        } ==> align > 0) by {
            assert(init[i] == reqs[i]);
        }
        lemma_run(s, init);
        assert(reqs[reqs.len() - 1] == reqs.last());
        lemma_step_wf(run(s, init), reqs.last());
    }
}

/// Bulk reset: from a state with no live allocation, once as many frees have
/// been accepted as allocations granted, in any order, `next` is back at the
/// start of the region, and a request that fits starts there, rounded up to
/// its alignment.
pub proof fn lemma_bulk_reset(s: HeapState, reqs: Seq<Request>, size: nat, align: nat)
    requires
        s.wf(),
        s.allocations == 0,
        aligned_requests(reqs),
        allocations_granted(s, reqs) == frees_accepted(s, reqs),
        align > 0,
    ensures
        run(s, reqs).next == s.heap_start,
        run(s, reqs).can_alloc(size, align) ==> run(s, reqs).alloc_start(align) == round_up(
            s.heap_start as int,
            align as int,
        ),
        run(s, reqs).can_alloc(size, align) <==> round_up(s.heap_start as int, align as int) + size
            <= s.heap_end,
{
    lemma_run(s, reqs);
}

/// Allocations never overlap: after an allocation is granted, and through
/// any later requests that never bring the count of live allocations back
/// to zero, `next` stays at or past its end, so the next allocation granted
/// starts at or past its end too.
pub proof fn lemma_no_overlap(
    s: HeapState,
    size: nat,
    align: nat,
    reqs: Seq<Request>,
    size2: nat,
    align2: nat,
)
    requires
        s.wf(),
        align > 0,
        align2 > 0,
        aligned_requests(reqs),
        s.can_alloc(size, align),
        forall|i: int|
            0 <= i <= reqs.len() ==> #[trigger] run(s.after_alloc(size, align), reqs.take(i)).allocations
                > 0,
    ensures
        run(s.after_alloc(size, align), reqs).next >= s.alloc_start(align) + size,
        run(s.after_alloc(size, align), reqs).can_alloc(size2, align2) ==> run(
            s.after_alloc(size, align),
            reqs,
        ).alloc_start(align2) >= s.alloc_start(align) + size,
{
    let s1 = s.after_alloc(size, align);
    lemma_step_wf(s, Request::Allocate { size, align });
    assert(reqs.take(reqs.len() as int) == reqs);
    lemma_next_kept(s1, reqs);
    lemma_round_up(run(s1, reqs).next as int, align2 as int);
}

/// Through requests that keep an allocation live, `next` never moves back.
proof fn lemma_next_kept(s: HeapState, reqs: Seq<Request>)
    requires
        s.wf(),
        aligned_requests(reqs),
        forall|i: int| 0 <= i <= reqs.len() ==> #[trigger] run(s, reqs.take(i)).allocations > 0,
    ensures
        run(s, reqs).next >= s.next,
    decreases reqs.len(),
{
    if reqs.len() > 0 {
        let init = reqs.drop_last();
        assert forall|i: int| 0 <= i <= init.len() implies #[trigger] run(s, init.take(i)).allocations
            > 0 by {
            assert(init.take(i) == reqs.take(i));
            assert(run(s, reqs.take(i)).allocations > 0);
        }
        assert forall|i: int| 0 <= i < init.len() implies (#[trigger] init[i] matches Request::Allocate {
            align,
            ..
        } ==> align > 0) by {
            assert(init[i] == reqs[i]);
        }
        lemma_next_kept(s, init);
        lemma_run(s, init);
        let before = run(s, init);
        assert(reqs[reqs.len() - 1] == reqs.last());
        assert(reqs.take(reqs.len() as int) == reqs);
        assert(run(s, reqs.take(reqs.len() as int)).allocations > 0);
        if let Request::Allocate { size, align } = reqs.last() {
            lemma_round_up(before.next as int, align as int);
        }
    }
}

/// Exhaustion boundary: a fresh region of `size > 0` bytes grants one request
/// for all of it at alignment 1, at its start, and refuses a second.
pub proof fn lemma_exhaustion(start: nat, size: nat)
    requires
        start + size <= usize::MAX,
        size > 0,
    ensures
        HeapState::fresh(start, size).can_alloc(size, 1),
        HeapState::fresh(start, size).alloc_start(1) == start,
        !HeapState::fresh(start, size).after_alloc(size, 1).can_alloc(size, 1),
{
    lemma_round_up(start as int, 1);
    lemma_round_up((start + size) as int, 1);
}

/// Overflow safety: a request whose size added to `next` passes the top of
/// the address space is refused and changes nothing.
pub proof fn lemma_overflow_refused(s: HeapState, size: nat, align: nat)
    requires
        s.wf(),
        align > 0,
        s.next + size > usize::MAX,
    ensures
        !s.can_alloc(size, align),
        s.after_alloc(size, align) == s,
{
    lemma_round_up(s.next as int, align as int);
}

} // verus!
