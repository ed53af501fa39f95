use vstd::prelude::*;

verus! {

/// Number of acceleration samples the multistep update reads.
pub const STEADY_WINDOW: usize = 4;

/// Which update advances the state on a tick.
#[derive(Clone, Copy, Debug, PartialEq, Eq, Structural)]
pub enum StepKind {
    /// Single-step update: `v' = v + dt * a`, then `x' = x + dt * v'`.
    Bootstrap,
    /// Four-step explicit multistep update over the most recent samples.
    Steady,
}

/// The update used on a tick whose freshly recorded acceleration sample
/// brings the acceleration history to `accel_len` samples.
pub open spec fn step_kind_for(accel_len: nat) -> StepKind {
    if accel_len < STEADY_WINDOW {
        StepKind::Bootstrap
    } else {
        StepKind::Steady
    }
}

/// The update a tick uses when the cached state is `k` and the acceleration
/// history, counting the tick's own sample, holds `accel_len` samples.
/// Once steady, always steady.
pub open spec fn next_kind(k: StepKind, accel_len: nat) -> StepKind {
    match k {
        StepKind::Steady => StepKind::Steady,
        StepKind::Bootstrap => step_kind_for(accel_len),
    }
}

impl StepKind {
    /// Selects the update from the length of the acceleration history,
    /// counted after the tick's acceleration sample has been appended.
    pub fn for_history_len(accel_len: usize) -> (k: StepKind)
        ensures
            k == step_kind_for(accel_len as nat),
    {
        if accel_len < STEADY_WINDOW {
            StepKind::Bootstrap
        } else {
            StepKind::Steady
        }
    }

    /// The one-way transition of the cached state: a bootstrap state looks at
    /// the history length, a steady state stays steady.
    pub fn advance(self, accel_len: usize) -> (k: StepKind)
        ensures
            k == next_kind(self, accel_len as nat),
    {
        match self {
            StepKind::Steady => StepKind::Steady,
            StepKind::Bootstrap => StepKind::for_history_len(accel_len),
        }
    }
}

/// The bootstrap update serves exactly the ticks that bring the acceleration
/// history to fewer than four samples, that is the first three ticks; every
/// later tick uses the steady update, and the selection never goes back.
pub proof fn lemma_bootstrap_then_steady(tick: nat, later: nat)
    requires
        1 <= tick <= later,
    ensures
        step_kind_for(tick) == StepKind::Bootstrap <==> tick <= 3,
        step_kind_for(tick) == StepKind::Steady ==> step_kind_for(later) == StepKind::Steady,
        next_kind(step_kind_for(tick), later) == step_kind_for(later),
{
}

/// What one update reads from the history.
#[derive(Debug)]
pub enum StepInputs<T> {
    /// The newest position, velocity and acceleration sample.
    Bootstrap { position: T, velocity: T, acceleration: T },
    /// The newest position and velocity, the four newest acceleration samples
    /// oldest first, and the two velocities recorded before the newest one,
    /// oldest first. The position update weighs these two, the newest
    /// velocity and the velocity it has just computed.
    Steady { position: T, velocity: T, accelerations: (T, T, T, T), earlier_velocities: (T, T) },
}

/// What a tick reads from the position and velocity histories `pos` and
/// `vel` and from the acceleration history `acc`, which already holds the
/// tick's own sample.
pub open spec fn step_input_for<T>(pos: Seq<T>, vel: Seq<T>, acc: Seq<T>) -> StepInputs<T> {
    let n = pos.len() - 1;
    let m = acc.len() - 1;
    match step_kind_for(acc.len()) {
        StepKind::Bootstrap => StepInputs::Bootstrap {
            position: pos[n],
            velocity: vel[n],
            acceleration: acc[m],
        },
        StepKind::Steady => StepInputs::Steady {
            position: pos[n],
            velocity: vel[n],
            accelerations: (acc[m - 3], acc[m - 2], acc[m - 1], acc[m]),
            earlier_velocities: (vel[n - 2], vel[n - 1]),
        },
    }
}

} // verus!
