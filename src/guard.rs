use vstd::prelude::*;

verus! {

/// A single-use deferred action. Running the guard consumes it, so the action
/// runs at most once.
pub struct Guard<F: FnOnce()> {
    f: F,
}

impl<F: FnOnce()> Guard<F> {
    /// The action that the guard holds.
    pub closed spec fn action(&self) -> F {
        self.f
    }

    pub fn new(f: F) -> (r: Self)
        ensures
            r.action() == f,
    {
        Guard { f }
    }

    /// Runs the held action, once.
    pub fn run(self)
        requires
            call_requires(self.action(), ()),
        ensures
            call_ensures(self.action(), (), ()),
    {
        (self.f)()
    }
}

} // verus!
