use kinematics::history::History;
use kinematics::stepper::{StepInputs, StepKind};

fn filled(ticks: i64) -> History<i64> {
    let mut h = History::new(100, 200);
    for t in 1..=ticks {
        h.record_tick(t, 200 + t, 100 + t);
    }
    h
}

#[test]
fn new_history_holds_initial_conditions() {
    let h: History<i64> = History::new(7, -3);
    assert_eq!(h.positions(), &[7]);
    assert_eq!(h.velocities(), &[-3]);
    assert!(h.accelerations().is_empty());
    assert_eq!(h.ticks(), 0);
    assert_eq!(h.mode(), StepKind::Bootstrap);
    assert_eq!(h.last_position(), 7);
    assert_eq!(h.last_velocity(), -3);
}

#[test]
fn record_tick_appends_in_lock_step() {
    let mut h = History::new(1, 2);
    h.record_tick(10, 20, 30);
    assert_eq!(h.positions(), &[1, 30]);
    assert_eq!(h.velocities(), &[2, 20]);
    assert_eq!(h.accelerations(), &[10]);
    for n in 2..10i64 {
        h.record_tick(n, n, n);
        assert_eq!(h.positions().len(), h.velocities().len());
        assert_eq!(h.accelerations().len() + 1, h.positions().len());
        assert_eq!(h.ticks() as i64, n);
    }
    assert_eq!(h.positions()[..2], [1, 30]);
}

#[test]
fn mode_is_bootstrap_for_first_three_ticks_then_steady() {
    let mut h = History::new(0, 0);
    let mut used = Vec::new();
    for t in 0..8 {
        used.push(h.mode());
        h.record_tick(t, t, t);
    }
    assert_eq!(
        used,
        vec![
            StepKind::Bootstrap,
            StepKind::Bootstrap,
            StepKind::Bootstrap,
            StepKind::Steady,
            StepKind::Steady,
            StepKind::Steady,
            StepKind::Steady,
            StepKind::Steady,
        ]
    );
}

#[test]
fn step_kind_selection_by_length() {
    assert_eq!(StepKind::for_history_len(0), StepKind::Bootstrap);
    assert_eq!(StepKind::for_history_len(3), StepKind::Bootstrap);
    assert_eq!(StepKind::for_history_len(4), StepKind::Steady);
    assert_eq!(StepKind::for_history_len(usize::MAX), StepKind::Steady);
    assert_eq!(StepKind::Bootstrap.advance(2), StepKind::Bootstrap);
    assert_eq!(StepKind::Bootstrap.advance(4), StepKind::Steady);
    assert_eq!(StepKind::Steady.advance(0), StepKind::Steady);
}

#[test]
fn bootstrap_inputs_are_newest_samples() {
    let h = filled(2);
    match h.step_inputs(99) {
        StepInputs::Bootstrap { position, velocity, acceleration } => {
            assert_eq!((position, velocity, acceleration), (102, 202, 99));
        }
        other => panic!("expected bootstrap inputs, got {:?}", other),
    }
    assert_eq!(h.ticks(), 2);
}

#[test]
fn steady_inputs_are_trailing_windows() {
    let h = filled(3);
    match h.step_inputs(99) {
        StepInputs::Steady { position, velocity, accelerations, earlier_velocities } => {
            assert_eq!(position, 103);
            assert_eq!(velocity, 203);
            assert_eq!(accelerations, (1, 2, 3, 99));
            assert_eq!(earlier_velocities, (201, 202));
        }
        other => panic!("expected steady inputs, got {:?}", other),
    }
    let h = filled(6);
    match h.step_inputs(-1) {
        StepInputs::Steady { position, velocity, accelerations, earlier_velocities } => {
            assert_eq!(position, 106);
            assert_eq!(velocity, 206);
            assert_eq!(accelerations, (4, 5, 6, -1));
            assert_eq!(earlier_velocities, (204, 205));
        }
        other => panic!("expected steady inputs, got {:?}", other),
    }
}

#[test]
fn output_rows_drop_the_newest_step() {
    let h = filled(4);
    let rows = h.output_rows();
    assert_eq!(rows.len(), h.positions().len() - 1);
    assert_eq!(rows, vec![(100, 200, 1), (101, 201, 2), (102, 202, 3), (103, 203, 4)]);
}

#[test]
fn output_rows_of_fresh_history_are_empty() {
    let h: History<i64> = History::new(5, 6);
    assert!(h.output_rows().is_empty());
}
