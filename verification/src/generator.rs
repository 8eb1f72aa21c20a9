//! The resumable computation that the adapters drive.

use vstd::prelude::*;

verus! {

/// What one resumption of a computation hands back.
#[derive(Debug, PartialEq, Eq, Structural)]
pub enum GeneratorState<Y, R> {
    /// The computation suspended and produced a value.
    Yielded(Y),
    /// The computation finished with its final result.
    Complete(R),
}

/// A computation that is advanced one step at a time.
pub trait Generator: Sized {
    /// The type of the values produced at each suspension.
    type Yield;

    /// The type of the final result.
    type Return;

    /// Whether the computation may be resumed in this state.
    ///
    /// Unless an implementation says otherwise, every state may be resumed.
    open spec fn can_resume(&self) -> bool {
        true
    }

    /// Whether one resumption in this state may leave the computation in
    /// state `next` and hand back `state`.
    ///
    /// Unless an implementation says otherwise, any outcome is possible.
    open spec fn resumes(&self, next: &Self, state: GeneratorState<Self::Yield, Self::Return>) -> bool {
        true
    }

    /// Advances the computation by one step.
    fn resume(&mut self) -> (state: GeneratorState<Self::Yield, Self::Return>)
        requires
            Self::can_resume(old(self)),
        ensures
            Self::resumes(old(self), final(self), state),
            state is Yielded ==> Self::can_resume(final(self)),
    ;
}

/// Whether resuming a computation of type `G` is a function of its state:
/// from any one state a resumption can lead to one state and one outcome
/// only.
pub open spec fn deterministic<G: Generator>() -> bool {
    forall|
        g: G,
        next1: G,
        state1: GeneratorState<G::Yield, G::Return>,
        next2: G,
        state2: GeneratorState<G::Yield, G::Return>,
    |
        #[trigger] g.resumes(&next1, state1) && #[trigger] g.resumes(&next2, state2) ==> next1
            == next2 && state1 == state2
}

} // verus!
