//! The plain adapter: each pull resumes the wrapped computation once.

use vstd::prelude::*;
use crate::generator::{deterministic, Generator, GeneratorState};

verus! {

/// A pull-based sequence that holds a resumable computation as its whole
/// state.
///
/// The adapter keeps nothing of its own, so it cannot tell whether the
/// computation has already finished: pulling it is allowed exactly where
/// resuming the computation is.
#[derive(Debug)]
pub struct GenIter<T>(pub T) where T: Generator<Return = ()>;

impl<T> GenIter<T> where T: Generator<Return = ()> {
    /// Whether the adapter may be pulled in this state.
    pub open spec fn can_pull(&self) -> bool {
        self.0.can_resume()
    }

    /// Whether one pull in this state may leave the adapter in state `next`
    /// and hand back `item`.
    pub open spec fn pulls(&self, next: &Self, item: Option<T::Yield>) -> bool {
        match item {
            Some(y) => self.0.resumes(&next.0, GeneratorState::Yielded(y)),
            None => self.0.resumes(&next.0, GeneratorState::Complete(())),
        }
    }

    /// Pulls the next item: resumes the computation exactly once and hands
    /// back the value it produced, or `None` if it finished.
    pub fn next(&mut self) -> (item: Option<T::Yield>)
        requires
            old(self).can_pull(),
        ensures
            old(self).pulls(final(self), item),
            item is Some ==> final(self).can_pull(),
    {
        match self.0.resume() {
            GeneratorState::Yielded(n) => Some(n),
            GeneratorState::Complete(r) => {
                assert(r == ());
                None
            },
        }
    }
}

impl<T> GenIter<T> where T: Generator<Return = ()> {
    /// Whether `states` and `items` record successive pulls of one adapter:
    /// `states[i]` is the adapter before the pull number `i`, `items[i]`
    /// what that pull handed back, and `states[i + 1]` the adapter after it.
    pub open spec fn is_run(states: Seq<Self>, items: Seq<Option<T::Yield>>) -> bool {
        &&& states.len() == items.len() + 1
        &&& forall|i: int|
            0 <= i < items.len() ==> states[i].pulls(&states[i + 1], #[trigger] items[i])
    }

    /// Over a computation whose resumption is a function of its state, a
    /// pull is a function of the adapter's state.
    pub proof fn lemma_pull_is_function(
        self,
        next1: Self,
        item1: Option<T::Yield>,
        next2: Self,
        item2: Option<T::Yield>,
    )
        requires
            deterministic::<T>(),
            self.pulls(&next1, item1),
            self.pulls(&next2, item2),
        ensures
            next1 == next2,
            item1 == item2,
    {
    }

    /// Two adapters in the same state, over a computation whose resumption
    /// is a function of its state, go through the same states and hand back
    /// the same items, however far each is pulled on its own.
    pub proof fn lemma_same_state_same_run(
        states1: Seq<Self>,
        items1: Seq<Option<T::Yield>>,
        states2: Seq<Self>,
        items2: Seq<Option<T::Yield>>,
        n: int,
    )
        requires
            deterministic::<T>(),
            Self::is_run(states1, items1),
            Self::is_run(states2, items2),
            states1[0] == states2[0],
            0 <= n < states1.len(),
            n < states2.len(),
        ensures
            states1[n] == states2[n],
            n < items1.len() && n < items2.len() ==> items1[n] == items2[n],
        decreases n,
    {
        if n > 0 {
            Self::lemma_same_state_same_run(states1, items1, states2, items2, n - 1);
            assert(states1[n - 1].pulls(&states1[n - 1 + 1], items1[n - 1]));
            assert(states2[n - 1].pulls(&states2[n - 1 + 1], items2[n - 1]));
            states1[n - 1].lemma_pull_is_function(
                states1[n],
                items1[n - 1],
                states2[n],
                items2[n - 1],
            );
        }
        if n < items1.len() && n < items2.len() {
            assert(states1[n].pulls(&states1[n + 1], items1[n]));
            assert(states2[n].pulls(&states2[n + 1], items2[n]));
            states1[n].lemma_pull_is_function(
                states1[n + 1],
                items1[n],
                states2[n + 1],
                items2[n],
            );
        }
    }
}

impl<T> Clone for GenIter<T> where T: Generator<Return = ()> + Clone {
    /// Duplicates the adapter by duplicating the computation it holds.
    fn clone(&self) -> (copy: Self)
        ensures
            cloned(self.0, copy.0),
    {
        GenIter(self.0.clone())
    }
}

impl<T> Copy for GenIter<T> where T: Generator<Return = ()> + Copy {
}

impl<T> From<T> for GenIter<T> where T: Generator<Return = ()> {
    /// Wraps a computation.
    fn from(gen: T) -> (adapter: Self)
        ensures
            adapter.0 == gen,
    {
        GenIter(gen)
    }
}

impl<T> vstd::std_specs::convert::FromSpecImpl<T> for GenIter<T> where T: Generator<Return = ()> {
    open spec fn obeys_from_spec() -> bool {
        true
    }

    open spec fn from_spec(gen: T) -> Self {
        GenIter(gen)
    }
}

} // verus!
