use crate::model::{
    adds_among, after_adds, after_calls, after_removes, nth_removed, removals_among, Call,
};
use vstd::prelude::*;

verus! {

/// Additions in a row append the new elements, in order, behind what was held.
proof fn lemma_adds_append<T>(held: Seq<T>, elems: Seq<T>)
    ensures
        after_adds(held, elems) == held + elems,
    decreases elems.len(),
{
    if elems.len() == 0 {
        assert(held + elems =~= held);
    } else {
        lemma_adds_append(held, elems.drop_last());
        assert(held + elems =~= (held + elems.drop_last()).push(elems.last()));
    }
}

/// Removals in a row take elements off the head until none is left.
proof fn lemma_removes_skip<T>(held: Seq<T>, n: nat)
    ensures
        n <= held.len() ==> after_removes(held, n) == held.skip(n as int),
        n >= held.len() ==> after_removes(held, n).len() == 0,
    decreases n,
{
    if n == 0 {
        assert(held.skip(0) =~= held);
    } else {
        lemma_removes_skip(held, (n - 1) as nat);
        if n <= held.len() {
            assert(held.skip(n - 1).drop_first() =~= held.skip(n as int));
        }
    }
}

/// A run of calls changes the number of elements held by the additions made,
/// less the removals that handed out an element.
proof fn lemma_calls_count<T>(held: Seq<T>, calls: Seq<Call<T>>)
    ensures
        after_calls(held, calls).len() + removals_among(held, calls) == held.len() + adds_among(
            calls,
        ),
    decreases calls.len(),
{
    if calls.len() > 0 {
        lemma_calls_count(held, calls.drop_last());
    }
}

/// First in, first out: when the elements of `elems` are added in order to a
/// queue holding `held`, the removals that follow hand out what was held and
/// then `elems`, each element once and in the order of its arrival. After as
/// many removals as there were elements the queue is empty.
pub proof fn first_in_first_out<T>(held: Seq<T>, elems: Seq<T>)
    ensures
        forall|i: nat|
            i < held.len() + elems.len() ==> #[trigger] nth_removed(after_adds(held, elems), i)
                == Some((held + elems)[i as int]),
        after_removes(after_adds(held, elems), held.len() + elems.len()) == Seq::<T>::empty(),
{
    let all = held + elems;
    lemma_adds_append(held, elems);
    assert forall|i: nat| i < all.len() implies #[trigger] nth_removed(all, i) == Some(
        all[i as int],
    ) by {
        lemma_removes_skip(all, i);
    }
    lemma_removes_skip(all, all.len());
    assert(after_removes(all, all.len()) =~= Seq::<T>::empty());
}

/// Draining: a queue holding `held` hands out an element at each of the first
/// `held.len()` removals and nothing at any later one.
pub proof fn drains_in_as_many_removals<T>(held: Seq<T>)
    ensures
        forall|i: nat| i < held.len() ==> #[trigger] nth_removed(held, i) is Some,
        forall|i: nat| i >= held.len() ==> #[trigger] nth_removed(held, i) is None,
{
    assert forall|i: nat| true implies (#[trigger] nth_removed(held, i) is Some <==> i
        < held.len()) by {
        lemma_removes_skip(held, i);
    }
}

/// Round trip: after any run of additions and removals on a new queue, the
/// removals that still hand out an element are as many as the additions made,
/// less the removals that handed one out.
pub proof fn round_trip_count<T>(calls: Seq<Call<T>>)
    ensures
        removals_among(Seq::<T>::empty(), calls) <= adds_among(calls),
        after_calls(Seq::<T>::empty(), calls).len() == adds_among(calls) - removals_among(
            Seq::<T>::empty(),
            calls,
        ),
        forall|i: nat|
            #[trigger] nth_removed(after_calls(Seq::<T>::empty(), calls), i) is Some <==> i
                < adds_among(calls) - removals_among(Seq::<T>::empty(), calls),
{
    let left = after_calls(Seq::<T>::empty(), calls);
    lemma_calls_count(Seq::<T>::empty(), calls);
    drains_in_as_many_removals(left);
}

/// Removal from an empty queue, however often repeated, hands out nothing and
/// leaves the queue empty.
pub proof fn removal_from_empty<T>(held: Seq<T>, n: nat)
    requires
        held.len() == 0,
    ensures
        nth_removed(held, n) is None,
        after_removes(held, n) == held,
    decreases n,
{
    if n > 0 {
        removal_from_empty(held, (n - 1) as nat);
    }
}

/// A queue is empty after a run of calls on a new queue exactly when every
/// addition has been matched by a removal that handed out an element.
pub proof fn empty_iff_balanced<T>(calls: Seq<Call<T>>)
    ensures
        after_calls(Seq::<T>::empty(), calls).len() == 0 <==> adds_among(calls) == removals_among(
            Seq::<T>::empty(),
            calls,
        ),
{
    lemma_calls_count(Seq::<T>::empty(), calls);
}

} // verus!
