use vstd::prelude::*;

verus! {

/// A command that goes on once an answer is there.
pub trait ChainedCommand: Sized {
    /// The answer.
    type Arg;

    /// What the command turns into.
    type Into;

    /// What the command turns into when `arg` is the answer.
    spec fn chain_spec(self, arg: Self::Arg) -> Self::Into;

    /// Takes the answer in.
    fn chain(self, arg: Self::Arg) -> (r: Self::Into)
        ensures
            r == self.chain_spec(arg),
    ;
}

} // verus!
