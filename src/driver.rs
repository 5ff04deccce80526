use vstd::prelude::*;

verus! {

/// Number of frames the benchmark renders before it exits.
pub const BENCHMARK_FRAMES: u32 = 240;

/// Process exit code reported when the benchmark completes.
pub const EXIT_SUCCESS: i32 = 0;

/// Whether the benchmark is still rendering frames.
#[derive(Debug, Clone, Copy, PartialEq, Eq, Structural)]
pub enum DriverState {
    Running,
    Terminated,
}

/// What the host loop must do after a frame update.
#[derive(Debug, Clone, Copy, PartialEq, Eq, Structural)]
pub enum FrameAction {
    /// Keep rendering.
    Continue,
    /// End the process with the given exit code.
    Exit(i32),
}

/// Abstract state of a frame counter.
pub ghost struct CounterModel {
    pub count: nat,
    pub limit: nat,
    pub terminated: bool,
}

/// The invocation on which a counter with threshold `limit` first observes
/// `count >= limit`: the count is raised before it is compared, so even a
/// zero threshold lets one frame through.
pub open spec fn exit_frame(limit: nat) -> nat {
    if limit == 0 { 1 } else { limit }
}

/// A counter that has not seen a frame yet.
pub open spec fn fresh(limit: nat) -> CounterModel {
    CounterModel { count: 0, limit, terminated: false }
}

/// One frame update: count it and compare against the threshold.
/// Once terminated, the state no longer changes.
pub open spec fn step(m: CounterModel) -> CounterModel {
    if m.terminated {
        m
    } else {
        CounterModel {
            count: m.count + 1,
            limit: m.limit,
            terminated: m.count + 1 >= m.limit,
        }
    }
}

/// The state after `n` frame updates starting from `m`.
pub open spec fn run(m: CounterModel, n: nat) -> CounterModel
    decreases n,
{
    if n == 0 { m } else { step(run(m, (n - 1) as nat)) }
}

/// The action the host must take in state `m`.
pub open spec fn action_of(m: CounterModel) -> FrameAction {
    if m.terminated { FrameAction::Exit(EXIT_SUCCESS) } else { FrameAction::Continue }
}

/// The state reported for `m`.
pub open spec fn state_of(m: CounterModel) -> DriverState {
    if m.terminated { DriverState::Terminated } else { DriverState::Running }
}

/// The states reachable from a fresh counter.
pub open spec fn reachable(m: CounterModel) -> bool {
    &&& m.count <= exit_frame(m.limit)
    &&& m.terminated == (m.count == exit_frame(m.limit))
}

/// A frame counter with its exit threshold.
pub struct FrameCounter {
    count: u32,
    limit: u32,
    terminated: bool,
}

impl View for FrameCounter {
    type V = CounterModel;

    closed spec fn view(&self) -> CounterModel {
        CounterModel { count: self.count as nat, limit: self.limit as nat, terminated: self.terminated }
    }
}

impl FrameCounter {
    #[verifier::type_invariant]
    spec fn inv(self) -> bool {
        reachable(self@)
    }

    /// A counter that exits once `limit` frames have been counted.
    pub fn new(limit: u32) -> (r: FrameCounter)
        ensures
            r@ == fresh(limit as nat),
    {
        FrameCounter { count: 0, limit, terminated: false }
    }

    /// A counter with the benchmark's own threshold.
    pub fn benchmark() -> (r: FrameCounter)
        ensures
            r@ == fresh(BENCHMARK_FRAMES as nat),
    {
        FrameCounter::new(BENCHMARK_FRAMES)
    }

    /// Counts one rendered frame, and tells the host to exit once the
    /// threshold is reached or exceeded. After that it keeps asking to exit.
    pub fn on_frame_update(&mut self) -> (r: FrameAction)
        ensures
            final(self)@ == step(old(self)@),
            r == action_of(final(self)@),
            reachable(final(self)@),
    {
        proof { use_type_invariant(&*self); }
        if !self.terminated {
            let count: u32 = self.count + 1;
            *self = FrameCounter { count, limit: self.limit, terminated: count >= self.limit };
        }
        if self.terminated {
            FrameAction::Exit(EXIT_SUCCESS)
        } else {
            FrameAction::Continue
        }
    }

    /// Frames counted so far.
    pub fn count(&self) -> (r: u32)
        ensures
            r as nat == self@.count,
    {
        self.count
    }

    /// The exit threshold.
    pub fn limit(&self) -> (r: u32)
        ensures
            r as nat == self@.limit,
    {
        self.limit
    }

    /// Whether the counter has asked the host to exit.
    pub fn is_terminated(&self) -> (r: bool)
        ensures
            r == self@.terminated,
    {
        self.terminated
    }

    /// The driver's state.
    pub fn state(&self) -> (r: DriverState)
        ensures
            r == state_of(self@),
    {
        if self.terminated {
            DriverState::Terminated
        } else {
            DriverState::Running
        }
    }
}

/// The state in which a counter with threshold `limit` ends.
pub open spec fn terminal(limit: nat) -> CounterModel {
    CounterModel { count: exit_frame(limit), limit, terminated: true }
}

/// Before the exit frame, `n` updates leave the counter running with a
/// count of exactly `n`.
pub proof fn lemma_running_before_exit(limit: nat, n: nat)
    requires
        n < exit_frame(limit),
    ensures
        run(fresh(limit), n) == (CounterModel { count: n, limit, terminated: false }),
        action_of(run(fresh(limit), n)) == FrameAction::Continue,
        state_of(run(fresh(limit), n)) == DriverState::Running,
    decreases n,
{
    if n > 0 {
        lemma_running_before_exit(limit, (n - 1) as nat);
    }
}

/// The update that reaches the exit frame terminates the counter with
/// success, its count exactly the exit frame; every later update leaves it
/// so.
pub proof fn lemma_exit_at_exit_frame(limit: nat, n: nat)
    requires
        n >= exit_frame(limit),
    ensures
        run(fresh(limit), n) == terminal(limit),
        action_of(run(fresh(limit), n)) == FrameAction::Exit(EXIT_SUCCESS),
        state_of(run(fresh(limit), n)) == DriverState::Terminated,
    decreases n,
{
    if n == exit_frame(limit) {
        lemma_running_before_exit(limit, (n - 1) as nat);
    } else {
        lemma_exit_at_exit_frame(limit, (n - 1) as nat);
    }
}

/// While the counter runs, each update raises the count by exactly one; over
/// any number of updates the count never decreases.
pub proof fn lemma_count_monotonic(m: CounterModel, i: nat, j: nat)
    requires
        i <= j,
    ensures
        !run(m, i).terminated ==> run(m, i + 1).count == run(m, i).count + 1,
        run(m, i).count <= run(m, j).count,
    decreases j,
{
    if i < j {
        lemma_count_monotonic(m, i, (j - 1) as nat);
    }
}

/// Termination depends on the number of updates and the threshold alone: a
/// fresh counter is terminated after `n` updates exactly when `n` has
/// reached the exit frame.
pub proof fn lemma_termination_index(limit: nat, n: nat)
    ensures
        run(fresh(limit), n).terminated <==> n >= exit_frame(limit),
{
    if n < exit_frame(limit) {
        lemma_running_before_exit(limit, n);
    } else {
        lemma_exit_at_exit_frame(limit, n);
    }
}

} // verus!
