use range_beacon::indicator::{indicator_frame, IndicatorColor, INDICATOR_BRIGHTNESS};
use range_beacon::sensor::{sensor_pending, sensor_step, SensorAction, SensorEvent, SensorPhase};

/// Drive one full cycle from the waiting phase and return the actions it
/// issued.
fn run_cycle(distance_mm: u32) -> (SensorPhase, Vec<SensorAction>) {
    let mut phase = SensorPhase::AwaitEdge;
    let mut actions = Vec::new();
    for event in [
        SensorEvent::EdgeDetected,
        SensorEvent::MeasuredMm { distance_mm },
        SensorEvent::WriteDone,
    ] {
        let (next, action) = sensor_step(phase, event);
        phase = next;
        actions.push(action);
    }
    (phase, actions)
}

#[test]
fn one_edge_one_measurement_one_write() {
    let (phase, actions) = run_cycle(150);
    assert_eq!(phase, SensorPhase::AwaitEdge);
    let reads = actions
        .iter()
        .filter(|a| matches!(a, SensorAction::ReadRange))
        .count();
    let writes = actions
        .iter()
        .filter(|a| matches!(a, SensorAction::WriteIndicator { .. }))
        .count();
    assert_eq!(reads, 1);
    assert_eq!(writes, 1);
}

#[test]
fn edge_with_near_measurement_writes_alert() {
    let (_, actions) = run_cycle(150);
    let expected = indicator_frame(IndicatorColor::Alert, INDICATOR_BRIGHTNESS);
    assert_eq!(actions[0], SensorAction::ReadRange);
    assert_eq!(actions[1], SensorAction::WriteIndicator { frame: expected });
    assert_eq!(actions[2], SensorAction::WaitForEdge);
}

#[test]
fn edge_with_far_measurement_writes_clear() {
    let (_, actions) = run_cycle(250);
    let expected = indicator_frame(IndicatorColor::Clear, INDICATOR_BRIGHTNESS);
    assert_eq!(actions[1], SensorAction::WriteIndicator { frame: expected });
}

#[test]
fn repeated_clear_cycles_write_identically() {
    let (_, first) = run_cycle(250);
    let (_, second) = run_cycle(300);
    let (_, third) = run_cycle(200);
    assert_eq!(first[1], second[1]);
    assert_eq!(first[1], third[1]);
    let writes: Vec<_> = [&first, &second, &third]
        .iter()
        .flat_map(|actions| {
            actions
                .iter()
                .filter(|a| matches!(a, SensorAction::WriteIndicator { .. }))
        })
        .collect();
    assert_eq!(writes.len(), 3);
}

#[test]
fn pending_action_of_waiting_phase_is_wait() {
    assert_eq!(sensor_pending(SensorPhase::AwaitEdge), SensorAction::WaitForEdge);
    assert_eq!(sensor_pending(SensorPhase::Measure), SensorAction::ReadRange);
}

#[test]
fn device_failure_halts_the_loop() {
    let (phase, action) = sensor_step(SensorPhase::Measure, SensorEvent::DeviceFailed);
    assert_eq!(phase, SensorPhase::Halted);
    assert_eq!(action, SensorAction::Halt);
}
