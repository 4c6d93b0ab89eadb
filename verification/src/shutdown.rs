use vstd::prelude::*;

verus! {

/// The process-wide cancellation token: a flag with a single false-to-true
/// transition, observed — never reset — by every long-running loop.
///
/// Monotonicity is structural: no method of this type clears the flag, so
/// once `request` has run, every later `is_set` answers true. The loops poll
/// it at each iteration boundary, which bounds their exit latency by one
/// poll interval.
pub struct ShutdownSignal {
    fired: bool,
}

impl ShutdownSignal {
    /// Whether shutdown has been requested.
    pub closed spec fn is_fired(&self) -> bool {
        self.fired
    }

    /// A fresh signal; shutdown has not been requested yet.
    pub fn new() -> (r: ShutdownSignal)
        ensures
            !r.is_fired(),
    {
        ShutdownSignal { fired: false }
    }

    /// Requests shutdown. The transition is one-way: the flag is set and
    /// stays set, whatever its previous value was.
    pub fn request(&mut self)
        ensures
            final(self).is_fired(),
    {
        self.fired = true;
    }

    /// Observes the flag, without changing it.
    pub fn is_set(&self) -> (r: bool)
        ensures
            r == self.is_fired(),
    {
        self.fired
    }
}

} // verus!
