use vstd::prelude::*;

verus! {

/// A cooperative cancellation signal. The armed-to-triggered transition is
/// one-way and idempotent; any number of observers may poll it. Each command
/// invocation should own (or be handed) its own token, so unrelated commands
/// are not mutually cancelled.
pub struct CancellationToken {
    triggered: bool,
}

impl CancellationToken {
    /// Whether the token has been triggered.
    pub closed spec fn spec_triggered(&self) -> bool {
        self.triggered
    }

    /// A fresh token in the armed state.
    pub fn new() -> (t: CancellationToken)
        ensures
            !t.spec_triggered(),
    {
        CancellationToken { triggered: false }
    }

    /// Fires the signal; firing an already-triggered token changes nothing.
    pub fn trigger(&mut self)
        ensures
            final(self).spec_triggered(),
    {
        self.triggered = true;
    }

    /// Polls the signal.
    pub fn is_triggered(&self) -> (r: bool)
        ensures
            r == self.spec_triggered(),
    {
        self.triggered
    }
}

} // verus!
