//! The result-preserving adapter: it keeps the computation's final result
//! and may be pulled for ever.

use vstd::prelude::*;
use crate::generator::{deterministic, Generator, GeneratorState};

verus! {

/// What a [`GenIterReturn`] holds: the computation while it runs, or its
/// final result once it has finished.
pub enum Progress<G, R> {
    /// The computation has not finished yet.
    Running(G),
    /// The computation has finished with this result.
    Done(R),
}

/// A pull-based sequence over a resumable computation that keeps the final
/// result of the computation once it has finished.
///
/// Differences with [`GenIter`](crate::gen_iter::GenIter):
/// 1. the result of the computation can be taken out afterwards;
/// 2. once the computation has finished, further pulls never resume it.
#[derive(Debug)]
pub struct GenIterReturn<G: Generator>(Result<G::Return, G>);

impl<G: Generator> View for GenIterReturn<G> {
    type V = Progress<G, G::Return>;

    closed spec fn view(&self) -> Progress<G, G::Return> {
        match self.0 {
            Ok(r) => Progress::Done(r),
            Err(g) => Progress::Running(g),
        }
    }
}

/// Whether one resumption of `g` may finish it with the result `r`,
/// whatever state the computation is left in.
pub open spec fn completes_with<G: Generator>(g: G, r: G::Return) -> bool {
    exists|after: G| g.resumes(&after, GeneratorState::Complete(r))
}

impl<G: Generator> GenIterReturn<G> {
    /// Whether the adapter may be pulled in this state: always once it is
    /// done, and while it runs exactly where the computation may be resumed.
    pub open spec fn can_pull(&self) -> bool {
        match self@ {
            Progress::Running(g) => g.can_resume(),
            Progress::Done(_) => true,
        }
    }

    /// Whether one pull in this state may leave the adapter in state `next`
    /// and hand back `item`.
    ///
    /// A running adapter resumes its computation once: a produced value is
    /// handed on and the adapter keeps running; completion is reported as
    /// `None` and the result is kept. An adapter that is done stays as it is
    /// and reports `None`.
    pub open spec fn pulls(&self, next: &Self, item: Option<G::Yield>) -> bool {
        match self@ {
            Progress::Running(g) => match item {
                Some(y) => match next@ {
                    Progress::Running(after) => g.resumes(&after, GeneratorState::Yielded(y)),
                    Progress::Done(_) => false,
                },
                None => match next@ {
                    Progress::Running(_) => false,
                    Progress::Done(r) => completes_with(g, r),
                },
            },
            Progress::Done(_) => *next == *self && item is None,
        }
    }

    /// Wraps a computation; the adapter starts out running.
    pub fn new(g: G) -> (adapter: Self)
        ensures
            adapter@ == Progress::<G, G::Return>::Running(g),
    {
        GenIterReturn(Err(g))
    }

    /// Whether the computation has finished.
    pub fn is_complete(&self) -> (done: bool)
        ensures
            done == (self@ is Done),
    {
        self.0.is_ok()
    }

    /// Takes the final result out of an adapter that is done; hands an
    /// adapter that is still running back unchanged.
    pub fn try_get_return(self) -> (res: Result<G::Return, Self>)
        ensures
            match self@ {
                Progress::Running(_) => res == Err::<G::Return, Self>(self),
                Progress::Done(r) => res == Ok::<G::Return, Self>(r),
            },
    {
        match self.0 {
            Ok(r) => Ok(r),
            Err(_) => Err(self),
        }
    }

    /// Pulls the next item.
    ///
    /// While running, the computation is resumed exactly once; when it
    /// finishes, its result is stored and `None` is handed back. Once done,
    /// every pull hands back `None` and leaves the adapter untouched.
    pub fn next(&mut self) -> (item: Option<G::Yield>)
        requires
            old(self).can_pull(),
        ensures
            old(self).pulls(final(self), item),
            final(self).can_pull(),
    {
        match &mut self.0 {
            Ok(_) => None,
            Err(g) => {
                let ghost before = *g;
                match g.resume() {
                    GeneratorState::Yielded(y) => Some(y),
                    GeneratorState::Complete(r) => {
                        assert(completes_with(before, r)) by {
                            assert(before.resumes(&*g, GeneratorState::Complete(r)));
                        }
                        self.0 = Ok(r);
                        None
                    },
                }
            },
        }
    }
}

impl<G: Generator> GenIterReturn<G> {
    /// Whether `states` and `items` record successive pulls of one adapter:
    /// `states[i]` is the adapter before the pull number `i`, `items[i]`
    /// what that pull handed back, and `states[i + 1]` the adapter after it.
    pub open spec fn is_run(states: Seq<Self>, items: Seq<Option<G::Yield>>) -> bool {
        &&& states.len() == items.len() + 1
        &&& forall|i: int|
            0 <= i < items.len() ==> states[i].pulls(&states[i + 1], #[trigger] items[i])
    }

    /// An adapter holds nothing but what its view shows.
    pub proof fn lemma_view_is_whole(self, other: Self)
        ensures
            self@ == other@ <==> self == other,
    {
    }

    /// A pull of an adapter that is done changes nothing and hands back
    /// `None`, and that is the only thing it can do.
    pub proof fn lemma_done_is_fixed(self, next: Self, item: Option<G::Yield>)
        requires
            self@ is Done,
        ensures
            self.pulls(&next, item) <==> (next == self && item is None),
            self.can_pull(),
    {
    }

    /// A pull hands back `None` exactly when it leaves the adapter done, and
    /// a value exactly when the adapter was running and still is.
    pub proof fn lemma_exhausted_iff_done(self, next: Self, item: Option<G::Yield>)
        requires
            self.pulls(&next, item),
        ensures
            item is None <==> next@ is Done,
            item is Some ==> self@ is Running,
    {
    }

    /// Once an adapter is done it never runs again: from then on every
    /// state of a run is the same, and every pull hands back `None`.
    pub proof fn lemma_done_for_ever(
        states: Seq<Self>,
        items: Seq<Option<G::Yield>>,
        i: int,
        j: int,
    )
        requires
            Self::is_run(states, items),
            0 <= i <= j < states.len(),
            states[i]@ is Done,
        ensures
            states[j] == states[i],
            j < items.len() ==> items[j] is None,
        decreases j - i,
    {
        if i < j {
            Self::lemma_done_for_ever(states, items, i, j - 1);
            assert(states[j - 1].pulls(&states[j - 1 + 1], items[j - 1]));
        }
        if j < items.len() {
            assert(states[j].pulls(&states[j + 1], items[j]));
        }
    }

    /// The items of a run are values up to the first `None` and `None` from
    /// there on: after its first `None` the adapter is done and stays so.
    pub proof fn lemma_exhausted_for_ever(
        states: Seq<Self>,
        items: Seq<Option<G::Yield>>,
        i: int,
        j: int,
    )
        requires
            Self::is_run(states, items),
            0 <= i <= j < items.len(),
            items[i] is None,
        ensures
            items[j] is None,
            states[j + 1] == states[i + 1],
            states[i + 1]@ is Done,
    {
        assert(states[i].pulls(&states[i + 1], items[i]));
        Self::lemma_done_for_ever(states, items, i + 1, j + 1);
        if i < j {
            Self::lemma_done_for_ever(states, items, i + 1, j);
        }
    }

    /// Two adapters in the same state, over a computation whose resumption
    /// is a function of its state, go through the same states and hand back
    /// the same items, however far each is pulled on its own.
    pub proof fn lemma_same_state_same_run(
        states1: Seq<Self>,
        items1: Seq<Option<G::Yield>>,
        states2: Seq<Self>,
        items2: Seq<Option<G::Yield>>,
        n: int,
    )
        requires
            deterministic::<G>(),
            Self::is_run(states1, items1),
            Self::is_run(states2, items2),
            states1[0]@ == states2[0]@,
            0 <= n < states1.len(),
            n < states2.len(),
        ensures
            states1[n] == states2[n],
            n < items1.len() && n < items2.len() ==> items1[n] == items2[n],
        decreases n,
    {
        if n > 0 {
            Self::lemma_same_state_same_run(states1, items1, states2, items2, n - 1);
            assert(states1[n - 1].pulls(&states1[n - 1 + 1], items1[n - 1]));
            assert(states2[n - 1].pulls(&states2[n - 1 + 1], items2[n - 1]));
            Self::lemma_pull_is_function(
                states1[n - 1],
                states1[n],
                items1[n - 1],
                states2[n],
                items2[n - 1],
            );
        }
        if n < items1.len() && n < items2.len() {
            assert(states1[n].pulls(&states1[n + 1], items1[n]));
            assert(states2[n].pulls(&states2[n + 1], items2[n]));
            Self::lemma_pull_is_function(
                states1[n],
                states1[n + 1],
                items1[n],
                states2[n + 1],
                items2[n],
            );
        }
    }

    /// Over a computation whose resumption is a function of its state, a
    /// pull is a function of the adapter's state.
    pub proof fn lemma_pull_is_function(
        self,
        next1: Self,
        item1: Option<G::Yield>,
        next2: Self,
        item2: Option<G::Yield>,
    )
        requires
            deterministic::<G>(),
            self.pulls(&next1, item1),
            self.pulls(&next2, item2),
        ensures
            next1 == next2,
            item1 == item2,
    {
    }
}

impl<G> Clone for GenIterReturn<G> where G: Generator + Clone, G::Return: Clone {
    /// Duplicates the adapter: a running one by duplicating its
    /// computation, one that is done by duplicating the result it keeps.
    fn clone(&self) -> (copy: Self)
        ensures
            match self@ {
                Progress::Running(g) => copy@ is Running && cloned(g, copy@->Running_0),
                Progress::Done(r) => copy@ is Done && cloned(r, copy@->Done_0),
            },
    {
        match &self.0 {
            Ok(r) => GenIterReturn(Ok(r.clone())),
            Err(g) => GenIterReturn(Err(g.clone())),
        }
    }
}

impl<G> Copy for GenIterReturn<G> where G: Generator + Copy, G::Return: Copy {
}

impl<G: Generator> From<G> for GenIterReturn<G> {
    /// Wraps a computation; the adapter starts out running.
    fn from(g: G) -> (adapter: Self)
        ensures
            adapter@ == Progress::<G, G::Return>::Running(g),
    {
        GenIterReturn::new(g)
    }
}

impl<G: Generator> vstd::std_specs::convert::FromSpecImpl<G> for GenIterReturn<G> {
    open spec fn obeys_from_spec() -> bool {
        true
    }

    closed spec fn from_spec(g: G) -> Self {
        GenIterReturn(Err(g))
    }
}

} // verus!
