use vstd::prelude::*;

verus! {

/// Length of the debounce window of the gated actions, in milliseconds.
pub const DEBOUNCE_WINDOW_MS: u64 = 1000;

/// Time-window gate against repeated triggering of an action.
///
/// Times are milliseconds on a monotonic clock chosen by the caller.
#[derive(Clone, Copy, Debug, PartialEq, Eq, Structural)]
pub struct DebounceGate {
    pub last_fired: Option<u64>,
    pub window: u64,
}

/// Whether an action is let through at time `now`: none has been let
/// through yet, or more than the window has passed since the last one.
pub open spec fn gate_open(g: DebounceGate, now: u64) -> bool {
    match g.last_fired {
        None => true,
        Some(t) => now - t > g.window,
    }
}

/// State after an attempt at time `now`, and whether it went through.
pub open spec fn gate_fired(g: DebounceGate, now: u64) -> (DebounceGate, bool) {
    if gate_open(g, now) {
        (DebounceGate { last_fired: Some(now), window: g.window }, true)
    } else {
        (g, false)
    }
}

impl DebounceGate {
    /// A gate that has never fired.
    pub fn new(window: u64) -> (r: DebounceGate)
        ensures
            r.last_fired is None,
            r.window == window,
    {
        DebounceGate { last_fired: None, window }
    }

    /// Lets the attempt through when open, recording `now`; otherwise
    /// changes nothing.
    pub fn try_fire(&mut self, now: u64) -> (r: bool)
        ensures
            (*final(self), r) == gate_fired(*old(self), now),
    {
        let open = match self.last_fired {
            None => true,
            Some(t) => now >= t && now - t > self.window,
        };
        if open {
            self.last_fired = Some(now);
        }
        open
    }
}

/// Two attempts on a gate that is open at the first: the first fires, and the
/// second fires exactly when more than the window separates them.
pub proof fn lemma_two_attempts(g: DebounceGate, t1: u64, t2: u64)
    requires
        gate_open(g, t1),
    ensures
        gate_fired(g, t1).1,
        gate_fired(gate_fired(g, t1).0, t2).1 <==> t2 - t1 > g.window,
{
}

} // verus!
