use vstd::prelude::*;

verus! {

/// Spec-level transition of [`ShutdownSignal`]: after a signal the
/// channel is signaled, whatever it was before.
pub open spec fn signaled_after(was_signaled: bool) -> bool {
    true
}

/// Spec-level observable effect of one signal call: only a signal on a
/// not-yet-signaled channel stops the listener.
pub open spec fn signal_effect(was_signaled: bool) -> bool {
    !was_signaled
}

/// The one-shot graceful-shutdown notification.
///
/// Created by the controller, handed to the server lifecycle manager.
/// Signaling is always safe: it never fails and never panics, and
/// repeated signals are absorbed without effect.
pub struct ShutdownSignal {
    signaled: bool,
}

impl ShutdownSignal {
    /// Whether the signal has already been raised.
    pub closed spec fn is_signaled(self) -> bool {
        self.signaled
    }

    /// A fresh, not yet signaled channel.
    pub fn new() -> (s: Self)
        ensures
            !s.is_signaled(),
    {
        ShutdownSignal { signaled: false }
    }

    /// Raises the signal.  Returns whether this call had an observable
    /// effect, i.e. whether it was the first.  Never an error.
    pub fn signal(&mut self) -> (had_effect: bool)
        ensures
            final(self).is_signaled() == signaled_after(old(self).is_signaled()),
            had_effect == signal_effect(old(self).is_signaled()),
    {
        let was = self.signaled;
        self.signaled = true;
        !was
    }

    /// Receiver-side test: has a stop been requested?
    pub fn stop_requested(&self) -> (b: bool)
        ensures
            b == self.is_signaled(),
    {
        self.signaled
    }
}

/// The signal may be raised any number of times without error: after the
/// first signal the channel stays signaled, and every later signal has
/// no observable effect.
pub proof fn lemma_signal_idempotent(was_signaled: bool)
    ensures
        signaled_after(signaled_after(was_signaled)) == signaled_after(was_signaled),
        !signal_effect(signaled_after(was_signaled)),
{
}

} // verus!
