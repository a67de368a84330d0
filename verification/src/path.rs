//! The path integrator's control state: a depth-bounded bounce loop.
//!
//! Each primary ray is traced through a sequence of scatter events. The
//! caller resolves intersections and reports, bounce by bounce, whether the
//! ray hit an object or escaped the scene; this module decides what happens
//! next. A miss ends the path at the background gradient. A hit scatters the
//! ray, unless it was the last bounce the depth budget allows, in which case
//! the path is treated as fully absorbed and contributes pure black.

use vstd::prelude::*;

verus! {

/// What the intersection resolver reported for the current ray.
#[derive(Clone, Copy, PartialEq, Eq, Structural, Debug)]
pub enum BounceEvent {
    /// The ray hit an object and may scatter.
    Hit,
    /// The ray escaped the scene.
    Miss,
}

/// What the path integrator decides to do after one bounce event.
#[derive(Clone, Copy, PartialEq, Eq, Structural, Debug)]
pub enum TraceStep {
    /// Attenuate by the hit object's color and trace the scattered ray.
    Scatter,
    /// The ray escaped: shade with the background gradient and stop.
    Background,
    /// The depth budget is exhausted: the path is fully absorbed (black).
    Absorbed,
}

/// Control state of one path: how many bounces have happened so far, out of
/// a fixed budget.
#[derive(Clone, Copy, PartialEq, Eq, Structural, Debug)]
pub struct PathState {
    pub bounces: u32,
    pub max_depth: u32,
}

/// The state a fresh path starts in: no bounces yet, budget `max_depth`.
pub open spec fn initial_state(max_depth: u32) -> PathState {
    PathState { bounces: 0, max_depth: max_depth }
}

/// One step of the bounce loop, as a pure transition function: the new state
/// and the decision taken.
pub open spec fn spec_step(s: PathState, event: BounceEvent) -> (PathState, TraceStep) {
    match event {
        BounceEvent::Miss => (s, TraceStep::Background),
        BounceEvent::Hit => {
            let advanced = PathState { bounces: (s.bounces + 1) as u32, max_depth: s.max_depth };
            if advanced.bounces == s.max_depth {
                (advanced, TraceStep::Absorbed)
            } else {
                (advanced, TraceStep::Scatter)
            }
        },
    }
}

/// The state after `n` consecutive hit events.
pub open spec fn after_hits(s: PathState, n: nat) -> PathState
    decreases n,
{
    if n == 0 {
        s
    } else {
        after_hits(spec_step(s, BounceEvent::Hit).0, (n - 1) as nat)
    }
}

impl PathState {
    /// The bounce count never exceeds the depth budget.
    pub open spec fn wf(self) -> bool {
        self.bounces <= self.max_depth
    }

    /// A live path may still bounce.
    pub open spec fn spec_live(self) -> bool {
        self.bounces < self.max_depth
    }

    /// Start a fresh path with the given depth budget.
    pub fn new(max_depth: u32) -> (s: PathState)
        ensures
            s == initial_state(max_depth),
            s.wf(),
    {
        PathState { bounces: 0, max_depth }
    }

    /// Whether the depth budget still allows another bounce.
    pub fn is_live(&self) -> (r: bool)
        ensures
            r == self.spec_live(),
    {
        self.bounces < self.max_depth
    }

    /// Advance the path by one bounce event and return the decision: a miss
    /// shades the background, a hit scatters, and the hit that spends the
    /// last of the depth budget absorbs the path.
    pub fn step(&mut self, event: BounceEvent) -> (r: TraceStep)
        requires
            old(self).wf(),
            old(self).spec_live(),
        ensures
            (*final(self), r) == spec_step(*old(self), event),
            final(self).wf(),
            r is Background <==> event is Miss,
    {
        match event {
            BounceEvent::Miss => TraceStep::Background,
            BounceEvent::Hit => {
                self.bounces = self.bounces + 1;
                if self.bounces == self.max_depth {
                    TraceStep::Absorbed
                } else {
                    TraceStep::Scatter
                }
            },
        }
    }
}

/// After `n <= max_depth` consecutive hits, a fresh path has bounced exactly
/// `n` times and its budget is unchanged.
pub proof fn lemma_hits_are_counted(max_depth: u32, n: nat)
    requires
        n <= max_depth,
    ensures
        after_hits(initial_state(max_depth), n).bounces == n,
        after_hits(initial_state(max_depth), n).max_depth == max_depth,
{
    lemma_hits_are_counted_from(initial_state(max_depth), n);
}

/// Helper: counting hits from an arbitrary well-formed state.
proof fn lemma_hits_are_counted_from(s: PathState, n: nat)
    requires
        s.bounces + n <= s.max_depth,
    ensures
        after_hits(s, n).bounces == s.bounces + n,
        after_hits(s, n).max_depth == s.max_depth,
    decreases n,
{
    if n > 0 {
        lemma_hits_are_counted_from(spec_step(s, BounceEvent::Hit).0, (n - 1) as nat);
    }
}

/// Depth exhaustion: a path that hits on every bounce scatters on each of
/// the first `max_depth - 1` bounces and is absorbed — never shaded as
/// background — by the final one, after exactly `max_depth` bounces.
pub proof fn lemma_depth_exhaustion(max_depth: u32)
    requires
        max_depth >= 1,
    ensures
        forall|n: nat|
            n < max_depth - 1 ==> spec_step(
                after_hits(initial_state(max_depth), n),
                BounceEvent::Hit,
            ).1 == TraceStep::Scatter,
        spec_step(after_hits(initial_state(max_depth), (max_depth - 1) as nat), BounceEvent::Hit).1
            == TraceStep::Absorbed,
        after_hits(initial_state(max_depth), max_depth as nat).bounces == max_depth,
{
    assert forall|n: nat| n < max_depth - 1 implies spec_step(
        after_hits(initial_state(max_depth), n),
        BounceEvent::Hit,
    ).1 == TraceStep::Scatter by {
        lemma_hits_are_counted(max_depth, n);
    }
    lemma_hits_are_counted(max_depth, (max_depth - 1) as nat);
    lemma_hits_are_counted(max_depth, max_depth as nat);
}

} // verus!
