use vstd::prelude::*;

verus! {

/// What a queue holding `held` holds once `elem` has joined at the tail.
pub open spec fn after_add<T>(held: Seq<T>, elem: T) -> Seq<T> {
    held.push(elem)
}

/// What a removal from a queue holding `held` hands out: the element that has
/// waited longest, or nothing when there is none.
pub open spec fn removed<T>(held: Seq<T>) -> Option<T> {
    if held.len() == 0 {
        None
    } else {
        Some(held.first())
    }
}

/// What a queue holding `held` holds after a removal: everything but the head.
/// An empty queue stays as it is.
pub open spec fn after_remove<T>(held: Seq<T>) -> Seq<T> {
    if held.len() == 0 {
        held
    } else {
        held.drop_first()
    }
}

/// What a queue holding `held` holds once every element of `elems` has been
/// added, in order.
pub open spec fn after_adds<T>(held: Seq<T>, elems: Seq<T>) -> Seq<T>
    decreases elems.len(),
{
    if elems.len() == 0 {
        held
    } else {
        after_add(after_adds(held, elems.drop_last()), elems.last())
    }
}

/// What a queue holding `held` holds after `n` removals in a row.
pub open spec fn after_removes<T>(held: Seq<T>, n: nat) -> Seq<T>
    decreases n,
{
    if n == 0 {
        held
    } else {
        after_remove(after_removes(held, (n - 1) as nat))
    }
}

/// What the removal that follows `n` earlier removals hands out.
pub open spec fn nth_removed<T>(held: Seq<T>, n: nat) -> Option<T> {
    removed(after_removes(held, n))
}

/// One call that changes a queue.
pub enum Call<T> {
    /// `add` with this element.
    Add(T),
    /// `remove`.
    Remove,
}

/// What a queue holding `held` holds after `call`.
pub open spec fn after_call<T>(held: Seq<T>, call: Call<T>) -> Seq<T> {
    match call {
        Call::Add(elem) => after_add(held, elem),
        Call::Remove => after_remove(held),
    }
}

/// What a queue holding `held` holds after `calls`, made in order.
pub open spec fn after_calls<T>(held: Seq<T>, calls: Seq<Call<T>>) -> Seq<T>
    decreases calls.len(),
{
    if calls.len() == 0 {
        held
    } else {
        after_call(after_calls(held, calls.drop_last()), calls.last())
    }
}

/// How many of `calls` are additions.
pub open spec fn adds_among<T>(calls: Seq<Call<T>>) -> nat
    decreases calls.len(),
{
    if calls.len() == 0 {
        0
    } else {
        adds_among(calls.drop_last()) + if calls.last() is Add {
            1nat
        } else {
            0nat
        }
    }
}

/// How many of `calls`, made in order on a queue holding `held`, are removals
/// that hand out an element.
pub open spec fn removals_among<T>(held: Seq<T>, calls: Seq<Call<T>>) -> nat
    decreases calls.len(),
{
    if calls.len() == 0 {
        0
    } else {
        let earlier = calls.drop_last();
        removals_among(held, earlier) + if calls.last() is Remove && removed(
            after_calls(held, earlier),
        ) is Some {
            1nat
        } else {
            0nat
        }
    }
}

} // verus!
