use vstd::prelude::*;
use crate::stepper::{StepInputs, StepKind, next_kind, step_input_for, step_kind_for};

verus! {

/// The append-only history of a run: one position and one velocity per step
/// index, the initial conditions at index 0, and one acceleration sample per
/// completed tick. Between ticks the acceleration history is one shorter than
/// the other two, and the cached update kind is the one the next tick uses.
pub struct History<T> {
    position: Vec<T>,
    velocity: Vec<T>,
    acceleration: Vec<T>,
    mode: StepKind,
}

impl<T: Copy> History<T> {
    pub closed spec fn spec_positions(&self) -> Seq<T> {
        self.position@
    }

    pub closed spec fn spec_velocities(&self) -> Seq<T> {
        self.velocity@
    }

    pub closed spec fn spec_accelerations(&self) -> Seq<T> {
        self.acceleration@
    }

    pub closed spec fn spec_mode(&self) -> StepKind {
        self.mode
    }

    /// Lengths in lock-step, and the cached update kind agrees with the one
    /// the history length selects for the next tick.
    pub open spec fn wf(&self) -> bool {
        &&& self.spec_velocities().len() == self.spec_positions().len()
        &&& self.spec_accelerations().len() + 1 == self.spec_positions().len()
        &&& self.spec_mode() == step_kind_for(self.spec_accelerations().len() + 1)
    }

    /// Number of ticks recorded so far.
    pub open spec fn spec_ticks(&self) -> nat {
        self.spec_accelerations().len()
    }

    /// A history holding only the initial conditions.
    pub fn new(initial_position: T, initial_velocity: T) -> (h: Self)
        ensures
            h.wf(),
            h.spec_positions() == seq![initial_position],
            h.spec_velocities() == seq![initial_velocity],
            h.spec_accelerations() == Seq::<T>::empty(),
    {
        let mut position: Vec<T> = Vec::new();
        position.push(initial_position);
        let mut velocity: Vec<T> = Vec::new();
        velocity.push(initial_velocity);
        let h = History { position, velocity, acceleration: Vec::new(), mode: StepKind::Bootstrap };
        assert(h.spec_positions() =~= seq![initial_position]);
        assert(h.spec_velocities() =~= seq![initial_velocity]);
        h
    }

    /// The recorded positions, index 0 first.
    pub fn positions(&self) -> (r: &[T])
        ensures
            r@ == self.spec_positions(),
    {
        self.position.as_slice()
    }

    /// The recorded velocities, index 0 first.
    pub fn velocities(&self) -> (r: &[T])
        ensures
            r@ == self.spec_velocities(),
    {
        self.velocity.as_slice()
    }

    /// The recorded acceleration samples, the first tick's first.
    pub fn accelerations(&self) -> (r: &[T])
        ensures
            r@ == self.spec_accelerations(),
    {
        self.acceleration.as_slice()
    }

    /// Number of ticks recorded so far.
    pub fn ticks(&self) -> (n: usize)
        requires
            self.wf(),
        ensures
            n == self.spec_ticks(),
    {
        self.acceleration.len()
    }

    /// The update the next tick uses.
    pub fn mode(&self) -> (k: StepKind)
        requires
            self.wf(),
        ensures
            k == self.spec_mode(),
            k == step_kind_for(self.spec_ticks() + 1),
    {
        self.mode
    }

    /// The newest position.
    pub fn last_position(&self) -> (x: T)
        requires
            self.wf(),
        ensures
            x == self.spec_positions().last(),
    {
        self.position[self.position.len() - 1]
    }

    /// The newest velocity.
    pub fn last_velocity(&self) -> (v: T)
        requires
            self.wf(),
        ensures
            v == self.spec_velocities().last(),
    {
        self.velocity[self.velocity.len() - 1]
    }
    /// What the next tick's update reads, once its acceleration sample `a`
    /// is counted in: the newest samples for the bootstrap update, the
    /// trailing windows for the steady one. The history is left unchanged.
    pub fn step_inputs(&self, a: T) -> (inp: StepInputs<T>)
        requires
            self.wf(),
        ensures
            inp == step_input_for(self.spec_positions(), self.spec_velocities(), self.spec_accelerations().push(a)),
    {
        let n = self.position.len() - 1;
        let position = self.position[n];
        let velocity = self.velocity[n];
        match self.mode {
            StepKind::Bootstrap => StepInputs::Bootstrap { position, velocity, acceleration: a },
            StepKind::Steady => {
                let m = self.acceleration.len();
                let accelerations = (self.acceleration[m - 3], self.acceleration[m - 2], self.acceleration[m - 1], a);
                let earlier_velocities = (self.velocity[n - 2], self.velocity[n - 1]);
                StepInputs::Steady { position, velocity, accelerations, earlier_velocities }
            },
        }
    }

    /// Records one completed tick: its acceleration sample `a`, then the new
    /// velocity `v` and position `x` that its update produced. Nothing that
    /// was recorded before changes, and the cached update kind moves from
    /// bootstrap to steady at most once.
    pub fn record_tick(&mut self, a: T, v: T, x: T)
        requires
            old(self).wf(),
            old(self).spec_positions().len() < usize::MAX,
        ensures
            final(self).wf(),
            final(self).spec_positions() == old(self).spec_positions().push(x),
            final(self).spec_velocities() == old(self).spec_velocities().push(v),
            final(self).spec_accelerations() == old(self).spec_accelerations().push(a),
            final(self).spec_mode() == next_kind(old(self).spec_mode(), final(self).spec_ticks() + 1),
    {
        self.acceleration.push(a);
        self.velocity.push(v);
        self.position.push(x);
        self.mode = self.mode.advance(self.acceleration.len() + 1);
    }

    /// The rows handed to the output: one per step index except the newest,
    /// each holding that index's position, velocity and acceleration sample.
    pub fn output_rows(&self) -> (rows: Vec<(T, T, T)>)
        requires
            self.wf(),
        ensures
            rows@.len() == self.spec_positions().len() - 1,
            forall|i: int|
                0 <= i < rows@.len() ==> #[trigger] rows@[i] == (
                    self.spec_positions()[i],
                    self.spec_velocities()[i],
                    self.spec_accelerations()[i],
                ),
    {
        let count = self.position.len() - 1;
        let mut rows: Vec<(T, T, T)> = Vec::new();
        let mut i: usize = 0;
        while i < count
            invariant
                self.wf(),
                count == self.spec_positions().len() - 1,
                i <= count,
                rows@.len() == i,
                forall|j: int|
                    0 <= j < i ==> #[trigger] rows@[j] == (
                        self.spec_positions()[j],
                        self.spec_velocities()[j],
                        self.spec_accelerations()[j],
                    ),
            decreases count - i,
        {
            rows.push((self.position[i], self.velocity[i], self.acceleration[i]));
            i = i + 1;
        }
        rows
    }
}

} // verus!
