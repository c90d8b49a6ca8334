use crate::listing::{debug_text, in_brackets, joined, listed};
use crate::model::{after_add, after_remove, removed};
use std::collections::VecDeque;
use std::fmt::Debug;
use vstd::prelude::*;

verus! {

/// The three representations of a queue.
enum SmallQueueState<T> {
    /// No element.
    Zero,
    /// Exactly one element, stored in place.
    One(T),
    /// Two or more elements, oldest first, in a heap-backed deque.
    Several(VecDeque<T>),
}

impl<T> SmallQueueState<T> {
    /// The elements held, oldest first.
    spec fn contents(self) -> Seq<T> {
        match self {
            SmallQueueState::Zero => Seq::empty(),
            SmallQueueState::One(elem) => seq![elem],
            SmallQueueState::Several(queue) => queue@,
        }
    }

    /// The deque is in use only while there are at least two elements.
    spec fn compact(self) -> bool {
        self matches SmallQueueState::Several(queue) ==> queue@.len() >= 2
    }

    /// The state that follows when `elem` joins at the tail. The deque is
    /// allocated on the step from one element to two, and only there.
    fn push(self, elem: T) -> (next: Self)
        requires
            self.compact(),
        ensures
            next.compact(),
            next.contents() == after_add(self.contents(), elem),
            next is Several <==> !(self is Zero),
    {
        match self {
            SmallQueueState::Zero => SmallQueueState::One(elem),
            SmallQueueState::One(present) => {
                let mut queue = VecDeque::new();
                queue.push_back(present);
                queue.push_back(elem);
                SmallQueueState::Several(queue)
            },
            SmallQueueState::Several(mut queue) => {
                queue.push_back(elem);
                SmallQueueState::Several(queue)
            },
        }
    }

    /// The state that follows a removal at the head, with the element removed.
    /// A deque left with a single element is given up for the in-place form.
    fn pop(self) -> (step: (Self, Option<T>))
        requires
            self.compact(),
        ensures
            step.0.compact(),
            step.0.contents() == after_remove(self.contents()),
            step.1 == removed(self.contents()),
            step.0 is Several <==> self.contents().len() >= 3,
    {
        match self {
            SmallQueueState::Zero => (SmallQueueState::Zero, None),
            SmallQueueState::One(elem) => (SmallQueueState::Zero, Some(elem)),
            SmallQueueState::Several(mut queue) => {
                let elem = queue.pop_front();
                if queue.len() == 1 {
                    (SmallQueueState::One(queue.pop_front().unwrap()), elem)
                } else {
                    (SmallQueueState::Several(queue), elem)
                }
            },
        }
    }
}

/// A FIFO queue which stores its data in place while it holds no element or
/// one, moves to a heap-backed deque when a second element is added, and gives
/// the deque up again once it is back to one element.
pub struct SmallQueue<T> {
    state: SmallQueueState<T>,
}

impl<T> View for SmallQueue<T> {
    type V = Seq<T>;

    /// The elements held, oldest first.
    closed spec fn view(&self) -> Seq<T> {
        self.state.contents()
    }
}

impl<T> SmallQueue<T> {
    #[verifier::type_invariant]
    spec fn compact(self) -> bool {
        self.state.compact()
    }

    /// Whether the queue is in its heap-backed form.
    pub closed spec fn spec_on_heap(&self) -> bool {
        self.state is Several
    }

    /// Whether the queue is in its heap-backed form, which it is exactly while
    /// it holds two elements or more.
    #[verifier::when_used_as_spec(spec_on_heap)]
    pub fn on_heap(&self) -> (heap: bool)
        ensures
            heap == self.spec_on_heap(),
            heap <==> self@.len() >= 2,
    {
        proof {
            use_type_invariant(self);
        }
        match &self.state {
            SmallQueueState::Several(_) => true,
            _ => false,
        }
    }

    /// New, empty queue.
    pub fn new() -> (queue: Self)
        ensures
            queue@ == Seq::<T>::empty(),
            !queue.on_heap(),
    {
        SmallQueue { state: SmallQueueState::Zero }
    }

    /// New queue with a single element.
    pub fn of(elem: T) -> (queue: Self)
        ensures
            queue@ == after_add(Seq::<T>::empty(), elem),
            !queue.on_heap(),
    {
        SmallQueue { state: SmallQueueState::One(elem) }
    }

    /// Insert an element in insertion end.
    pub fn add(&mut self, elem: T)
        ensures
            final(self)@ == after_add(old(self)@, elem),
            final(self).on_heap() <==> final(self)@.len() >= 2,
    {
        proof {
            use_type_invariant(&*self);
        }
        let mut state = SmallQueueState::Zero;
        std::mem::swap(&mut state, &mut self.state);
        self.state = state.push(elem);
    }

    /// Remove an element from the removal end.
    pub fn remove(&mut self) -> (elem: Option<T>)
        ensures
            elem == removed(old(self)@),
            final(self)@ == after_remove(old(self)@),
            final(self).on_heap() <==> final(self)@.len() >= 2,
    {
        proof {
            use_type_invariant(&*self);
        }
        let mut state = SmallQueueState::Zero;
        std::mem::swap(&mut state, &mut self.state);
        let (next, elem) = state.pop();
        self.state = next;
        elem
    }

    /// Whether the queue is empty.
    pub fn is_empty(&self) -> (empty: bool)
        ensures
            empty <==> self@.len() == 0,
    {
        proof {
            use_type_invariant(self);
        }
        match &self.state {
            SmallQueueState::Zero => true,
            _ => false,
        }
    }
}

impl<T: Debug> SmallQueue<T> {
    /// The elements as text, oldest first: each element is handed in turn to
    /// its `Debug` impl, and the texts are written out as a list, separated
    /// by a comma and a space, between square brackets (`[]` for an empty
    /// queue). What stands for an element is up to its `Debug` impl; where
    /// that impl reports an error for an element, there is no listing.
    pub fn listing(&self) -> (text: Option<String>)
        ensures
            self@.len() == 0 ==> text is Some,
            text matches Some(t) ==> exists|texts: Seq<Seq<char>>|
                texts.len() == self@.len() && t@ == in_brackets(#[trigger] joined(texts)),
    {
        proof {
            use_type_invariant(self);
        }
        let mut texts: Vec<String> = Vec::new();
        match &self.state {
            SmallQueueState::Zero => {},
            SmallQueueState::One(elem) => {
                match debug_text(elem) {
                    Some(one) => texts.push(one),
                    None => return None,
                }
            },
            SmallQueueState::Several(queue) => {
                let mut at: usize = 0;
                while at < queue.len()
                    invariant
                        queue@ == self@,
                        self@.len() >= 2,
                        at <= queue@.len(),
                        texts@.len() == at,
                    decreases queue@.len() - at,
                {
                    match debug_text(&queue[at]) {
                        Some(next) => texts.push(next),
                        None => return None,
                    }
                    at += 1;
                }
            },
        }
        let text = listed(&texts);
        Some(text)
    }
}

} // verus!
