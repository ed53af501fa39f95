use vstd::prelude::*;
use crate::history::History;
use crate::stepper::{StepInputs, step_input_for};

verus! {

/// Tick `i` of a run, counted from 0, is consistent with the force model and
/// the update: its acceleration sample is a result of `acceleration_of` on
/// the position and velocity at index `i`, and the velocity and position at
/// index `i + 1` are a result of `step` on what the tick reads from the
/// history as it stood then.
pub open spec fn tick_holds<T, F: Fn(T, T) -> T, S: Fn(StepInputs<T>) -> (T, T)>(
    acceleration_of: F,
    step: S,
    pos: Seq<T>,
    vel: Seq<T>,
    acc: Seq<T>,
    i: int,
) -> bool {
    &&& acceleration_of.ensures((pos[i], vel[i]), acc[i])
    &&& step.ensures(
        (step_input_for(pos.take(i + 1), vel.take(i + 1), acc.take(i + 1)),),
        (vel[i + 1], pos[i + 1]),
    )
}

/// `pos`, `vel` and `acc` are the histories of a run of `ticks` ticks from
/// the given initial conditions.
pub open spec fn is_run<T, F: Fn(T, T) -> T, S: Fn(StepInputs<T>) -> (T, T)>(
    acceleration_of: F,
    step: S,
    initial_position: T,
    initial_velocity: T,
    ticks: nat,
    pos: Seq<T>,
    vel: Seq<T>,
    acc: Seq<T>,
) -> bool {
    &&& pos.len() == ticks + 1
    &&& vel.len() == ticks + 1
    &&& acc.len() == ticks
    &&& pos[0] == initial_position
    &&& vel[0] == initial_velocity
    &&& forall|i: int| 0 <= i < ticks ==> #[trigger] tick_holds(acceleration_of, step, pos, vel, acc, i)
}

/// Runs `ticks` ticks from the initial conditions. Each tick evaluates
/// `acceleration_of` on the newest position and velocity, records the
/// sample, hands `step` what the selected update reads, and records the
/// velocity and position it returns.
pub fn simulate<T: Copy, F: Fn(T, T) -> T, S: Fn(StepInputs<T>) -> (T, T)>(
    initial_position: T,
    initial_velocity: T,
    ticks: usize,
    acceleration_of: F,
    step: S,
) -> (h: History<T>)
    requires
        ticks < usize::MAX,
        forall|x: T, v: T| acceleration_of.requires((x, v)),
        forall|inp: StepInputs<T>| step.requires((inp,)),
    ensures
        h.wf(),
        is_run(
            acceleration_of,
            step,
            initial_position,
            initial_velocity,
            ticks as nat,
            h.spec_positions(),
            h.spec_velocities(),
            h.spec_accelerations(),
        ),
{
    let mut h = History::new(initial_position, initial_velocity);
    let mut done: usize = 0;
    while done < ticks
        invariant
            ticks < usize::MAX,
            forall|x: T, v: T| acceleration_of.requires((x, v)),
            forall|inp: StepInputs<T>| step.requires((inp,)),
            done <= ticks,
            h.wf(),
            is_run(
                acceleration_of,
                step,
                initial_position,
                initial_velocity,
                done as nat,
                h.spec_positions(),
                h.spec_velocities(),
                h.spec_accelerations(),
            ),
        decreases ticks - done,
    {
        let a = acceleration_of(h.last_position(), h.last_velocity());
        let inp = h.step_inputs(a);
        let (v, x) = step(inp);
        let ghost pos0 = h.spec_positions();
        let ghost vel0 = h.spec_velocities();
        let ghost acc0 = h.spec_accelerations();
        h.record_tick(a, v, x);
        proof {
            let pos = h.spec_positions();
            let vel = h.spec_velocities();
            let acc = h.spec_accelerations();
            assert forall|i: int| 0 <= i < done + 1 implies #[trigger] tick_holds(
                acceleration_of,
                step,
                pos,
                vel,
                acc,
                i,
            ) by {
                assert(pos.take(i + 1) =~= pos0.take(i + 1));
                assert(vel.take(i + 1) =~= vel0.take(i + 1));
                if i < done {
                    assert(acc.take(i + 1) =~= acc0.take(i + 1));
                    assert(tick_holds(acceleration_of, step, pos0, vel0, acc0, i));
                } else {
                    assert(pos0.take(i + 1) =~= pos0);
                    assert(vel0.take(i + 1) =~= vel0);
                    assert(acc.take(i + 1) =~= acc0.push(a));
                }
            }
        }
        done = done + 1;
    }
    h
}

/// In a history whose lengths are in lock-step, tick `i`, counted from 0,
/// reads the bootstrap inputs exactly when it is one of the first three ticks.
pub proof fn lemma_tick_update_kind<T>(pos: Seq<T>, vel: Seq<T>, acc: Seq<T>, i: int)
    requires
        vel.len() == pos.len(),
        acc.len() + 1 == pos.len(),
        0 <= i < acc.len(),
    ensures
        step_input_for(pos.take(i + 1), vel.take(i + 1), acc.take(i + 1)) is Bootstrap <==> i < 3,
        step_input_for(pos.take(i + 1), vel.take(i + 1), acc.take(i + 1)) is Steady <==> i >= 3,
{
}

/// A run is determined by its initial conditions and its tick count when the
/// force model and the update are deterministic: two runs from the same
/// initial conditions, with the same functions, record the same histories.
pub proof fn lemma_run_deterministic<T, F: Fn(T, T) -> T, S: Fn(StepInputs<T>) -> (T, T)>(
    acceleration_of: F,
    step: S,
    initial_position: T,
    initial_velocity: T,
    ticks: nat,
    pos1: Seq<T>,
    vel1: Seq<T>,
    acc1: Seq<T>,
    pos2: Seq<T>,
    vel2: Seq<T>,
    acc2: Seq<T>,
)
    requires
        forall|x: T, v: T, a1: T, a2: T|
            acceleration_of.ensures((x, v), a1) && acceleration_of.ensures((x, v), a2) ==> a1 == a2,
        forall|inp: StepInputs<T>, r1: (T, T), r2: (T, T)|
            step.ensures((inp,), r1) && step.ensures((inp,), r2) ==> r1 == r2,
        is_run(acceleration_of, step, initial_position, initial_velocity, ticks, pos1, vel1, acc1),
        is_run(acceleration_of, step, initial_position, initial_velocity, ticks, pos2, vel2, acc2),
    ensures
        pos1 == pos2,
        vel1 == vel2,
        acc1 == acc2,
{
    lemma_runs_agree_up_to(acceleration_of, step, initial_position, initial_velocity, ticks, pos1, vel1, acc1, pos2, vel2, acc2, ticks as int);
    assert(pos1 =~= pos1.take(ticks as int + 1));
    assert(pos2 =~= pos2.take(ticks as int + 1));
    assert(vel1 =~= vel1.take(ticks as int + 1));
    assert(vel2 =~= vel2.take(ticks as int + 1));
    assert(acc1 =~= acc1.take(ticks as int));
    assert(acc2 =~= acc2.take(ticks as int));
}

proof fn lemma_runs_agree_up_to<T, F: Fn(T, T) -> T, S: Fn(StepInputs<T>) -> (T, T)>(
    acceleration_of: F,
    step: S,
    initial_position: T,
    initial_velocity: T,
    ticks: nat,
    pos1: Seq<T>,
    vel1: Seq<T>,
    acc1: Seq<T>,
    pos2: Seq<T>,
    vel2: Seq<T>,
    acc2: Seq<T>,
    k: int,
)
    requires
        0 <= k <= ticks,
        forall|x: T, v: T, a1: T, a2: T|
            acceleration_of.ensures((x, v), a1) && acceleration_of.ensures((x, v), a2) ==> a1 == a2,
        forall|inp: StepInputs<T>, r1: (T, T), r2: (T, T)|
            step.ensures((inp,), r1) && step.ensures((inp,), r2) ==> r1 == r2,
        is_run(acceleration_of, step, initial_position, initial_velocity, ticks, pos1, vel1, acc1),
        is_run(acceleration_of, step, initial_position, initial_velocity, ticks, pos2, vel2, acc2),
    ensures
        pos1.take(k + 1) == pos2.take(k + 1),
        vel1.take(k + 1) == vel2.take(k + 1),
        acc1.take(k) == acc2.take(k),
    decreases k,
{
    if k == 0 {
        assert(pos1.take(1) =~= pos2.take(1));
        assert(vel1.take(1) =~= vel2.take(1));
        assert(acc1.take(0) =~= acc2.take(0));
    } else {
        let j = k - 1;
        lemma_runs_agree_up_to(acceleration_of, step, initial_position, initial_velocity, ticks, pos1, vel1, acc1, pos2, vel2, acc2, j);
        assert(tick_holds(acceleration_of, step, pos1, vel1, acc1, j));
        assert(tick_holds(acceleration_of, step, pos2, vel2, acc2, j));
        assert(pos1[j] == pos1.take(j + 1)[j]);
        assert(pos2[j] == pos2.take(j + 1)[j]);
        assert(vel1[j] == vel1.take(j + 1)[j]);
        assert(vel2[j] == vel2.take(j + 1)[j]);
        assert(acc1[j] == acc2[j]);
        assert(acc1.take(j + 1) =~= acc1.take(j).push(acc1[j]));
        assert(acc2.take(j + 1) =~= acc2.take(j).push(acc2[j]));
        assert(vel1[j + 1] == vel2[j + 1] && pos1[j + 1] == pos2[j + 1]);
        assert(pos1.take(k + 1) =~= pos1.take(k).push(pos1[k]));
        assert(pos2.take(k + 1) =~= pos2.take(k).push(pos2[k]));
        assert(vel1.take(k + 1) =~= vel1.take(k).push(vel1[k]));
        assert(vel2.take(k + 1) =~= vel2.take(k).push(vel2[k]));
    }
}

} // verus!
