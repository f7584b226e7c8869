//! The edge-triggered sensing loop: each falling edge of the trigger
//! input yields exactly one range measurement and exactly one indicator
//! write. The waiting itself happens in the driving task; this module
//! holds every decision the loop takes, as a step function from phase and
//! observed event to next phase and next action.

use vstd::prelude::*;
use crate::DISTANCE_THRESHOLD_MM;
use crate::indicator::{IndicatorColor, Rgb, INDICATOR_BRIGHTNESS, frame_spec, indicator_frame};

verus! {

/// The decision for one range sample: an alert strictly below the
/// threshold, clear at the threshold and above.
pub open spec fn classify_spec(distance_mm: u32) -> IndicatorColor {
    if distance_mm < DISTANCE_THRESHOLD_MM {
        IndicatorColor::Alert
    } else {
        IndicatorColor::Clear
    }
}

/// Classify one range sample. The comparison is strict: a sample equal to
/// the threshold is classified `Clear`.
pub fn classify(distance_mm: u32) -> (c: IndicatorColor)
    ensures
        c == classify_spec(distance_mm),
        c is Alert <==> distance_mm < DISTANCE_THRESHOLD_MM,
        c is Clear <==> distance_mm >= DISTANCE_THRESHOLD_MM,
{
    if distance_mm < DISTANCE_THRESHOLD_MM {
        IndicatorColor::Alert
    } else {
        IndicatorColor::Clear
    }
}

/// Where the sensing loop stands between two suspension points.
#[derive(Clone, Copy, PartialEq, Eq, Structural, Debug)]
pub enum SensorPhase {
    /// Blocked until the trigger input reports a falling edge.
    AwaitEdge,
    /// An edge has been observed; one measurement has been requested.
    Measure,
    /// A decision has been made; its frame is being committed to the
    /// indicator.
    Commit { frame: Rgb },
    /// A device call failed; the loop has stopped. This preserves the
    /// fail-fast stance of the deployed system: sensor and indicator
    /// errors are not recovered from.
    Halted,
}

/// What the driving task observes at each suspension point.
#[derive(Clone, Copy, PartialEq, Eq, Structural, Debug)]
pub enum SensorEvent {
    /// The trigger input reported a falling edge.
    EdgeDetected,
    /// The ranging sensor returned one sample, in millimeters.
    MeasuredMm { distance_mm: u32 },
    /// The indicator accepted the committed frame.
    WriteDone,
    /// The trigger, sensor or indicator call failed.
    DeviceFailed,
}

/// What the driving task is asked to do next.
#[derive(Clone, Copy, PartialEq, Eq, Structural, Debug)]
pub enum SensorAction {
    /// Suspend until the next falling edge.
    WaitForEdge,
    /// Request one range measurement.
    ReadRange,
    /// Commit this frame to the indicator strip.
    WriteIndicator { frame: Rgb },
    /// Stop the loop.
    Halt,
}

/// The action a phase is waiting on; re-issued if the driving task hands
/// back an event that does not answer it.
pub open spec fn sensor_pending_spec(p: SensorPhase) -> SensorAction {
    match p {
        SensorPhase::AwaitEdge => SensorAction::WaitForEdge,
        SensorPhase::Measure => SensorAction::ReadRange,
        SensorPhase::Commit { frame } => SensorAction::WriteIndicator { frame },
        SensorPhase::Halted => SensorAction::Halt,
    }
}

/// One step of the sensing loop: the phase it moves to and the action the
/// driving task must perform next.
pub open spec fn sensor_step_spec(p: SensorPhase, e: SensorEvent) -> (SensorPhase, SensorAction) {
    match (p, e) {
        (SensorPhase::AwaitEdge, SensorEvent::EdgeDetected) => (
            SensorPhase::Measure,
            SensorAction::ReadRange,
        ),
        (SensorPhase::Measure, SensorEvent::MeasuredMm { distance_mm }) => (
            SensorPhase::Commit { frame: frame_spec(classify_spec(distance_mm), INDICATOR_BRIGHTNESS) },
            SensorAction::WriteIndicator { frame: frame_spec(classify_spec(distance_mm), INDICATOR_BRIGHTNESS) },
        ),
        (SensorPhase::Commit { .. }, SensorEvent::WriteDone) => (
            SensorPhase::AwaitEdge,
            SensorAction::WaitForEdge,
        ),
        (_, SensorEvent::DeviceFailed) => (SensorPhase::Halted, SensorAction::Halt),
        _ => (p, sensor_pending_spec(p)),
    }
}

/// The action a phase is waiting on.
pub fn sensor_pending(p: SensorPhase) -> (a: SensorAction)
    ensures
        a == sensor_pending_spec(p),
{
    match p {
        SensorPhase::AwaitEdge => SensorAction::WaitForEdge,
        SensorPhase::Measure => SensorAction::ReadRange,
        SensorPhase::Commit { frame } => SensorAction::WriteIndicator { frame },
        SensorPhase::Halted => SensorAction::Halt,
    }
}

/// Take one step of the sensing loop. On a measurement the sample is
/// classified against the distance threshold and the matching frame,
/// brightness-scaled and gamma-corrected, is committed; on a device
/// failure the loop halts.
pub fn sensor_step(p: SensorPhase, e: SensorEvent) -> (r: (SensorPhase, SensorAction))
    ensures
        r == sensor_step_spec(p, e),
{
    match (p, e) {
        (SensorPhase::AwaitEdge, SensorEvent::EdgeDetected) => (
            SensorPhase::Measure,
            SensorAction::ReadRange,
        ),
        (SensorPhase::Measure, SensorEvent::MeasuredMm { distance_mm }) => {
            let color = classify(distance_mm);
            let frame = indicator_frame(color, INDICATOR_BRIGHTNESS);
            (SensorPhase::Commit { frame }, SensorAction::WriteIndicator { frame })
        },
        (SensorPhase::Commit { frame: _ }, SensorEvent::WriteDone) => (
            SensorPhase::AwaitEdge,
            SensorAction::WaitForEdge,
        ),
        (_, SensorEvent::DeviceFailed) => (SensorPhase::Halted, SensorAction::Halt),
        (other, _) => {
            let a = sensor_pending(other);
            (other, a)
        },
    }
}

/// The events that answer the action pending in a phase. A halted loop
/// accepts none.
pub open spec fn sensor_admissible(p: SensorPhase, e: SensorEvent) -> bool {
    match p {
        SensorPhase::AwaitEdge => e is EdgeDetected || e is DeviceFailed,
        SensorPhase::Measure => e is MeasuredMm || e is DeviceFailed,
        SensorPhase::Commit { .. } => e is WriteDone || e is DeviceFailed,
        SensorPhase::Halted => false,
    }
}

/// Every event of the sequence answers the action pending when it is
/// delivered.
pub open spec fn sensor_trace_admissible(p: SensorPhase, events: Seq<SensorEvent>) -> bool
    decreases events.len(),
{
    events.len() == 0 || {
        &&& sensor_admissible(p, events[0])
        &&& sensor_trace_admissible(sensor_step_spec(p, events[0]).0, events.drop_first())
    }
}

/// The actions the loop issues over a sequence of observed events.
pub open spec fn sensor_run(p: SensorPhase, events: Seq<SensorEvent>) -> Seq<SensorAction>
    decreases events.len(),
{
    if events.len() == 0 {
        Seq::empty()
    } else {
        seq![sensor_step_spec(p, events[0]).1] + sensor_run(
            sensor_step_spec(p, events[0]).0,
            events.drop_first(),
        )
    }
}

/// The phase the loop stands in after a sequence of observed events.
pub open spec fn sensor_final(p: SensorPhase, events: Seq<SensorEvent>) -> SensorPhase
    decreases events.len(),
{
    if events.len() == 0 {
        p
    } else {
        sensor_final(sensor_step_spec(p, events[0]).0, events.drop_first())
    }
}

pub open spec fn count_edges(events: Seq<SensorEvent>) -> nat
    decreases events.len(),
{
    if events.len() == 0 {
        0
    } else {
        (if events[0] is EdgeDetected { 1nat } else { 0nat }) + count_edges(events.drop_first())
    }
}

pub open spec fn count_measurements(events: Seq<SensorEvent>) -> nat
    decreases events.len(),
{
    if events.len() == 0 {
        0
    } else {
        (if events[0] is MeasuredMm { 1nat } else { 0nat }) + count_measurements(events.drop_first())
    }
}

pub open spec fn count_reads(actions: Seq<SensorAction>) -> nat
    decreases actions.len(),
{
    if actions.len() == 0 {
        0
    } else {
        (if actions[0] is ReadRange { 1nat } else { 0nat }) + count_reads(actions.drop_first())
    }
}

pub open spec fn count_writes(actions: Seq<SensorAction>) -> nat
    decreases actions.len(),
{
    if actions.len() == 0 {
        0
    } else {
        (if actions[0] is WriteIndicator { 1nat } else { 0nat }) + count_writes(actions.drop_first())
    }
}

/// The loop neither batches nor skips: over any admissible event
/// sequence it requests exactly one measurement per observed edge and
/// commits exactly one indicator write per returned measurement.
pub proof fn lemma_one_measurement_one_write_per_edge(p: SensorPhase, events: Seq<SensorEvent>)
    requires
        sensor_trace_admissible(p, events),
    ensures
        count_reads(sensor_run(p, events)) == count_edges(events),
        count_writes(sensor_run(p, events)) == count_measurements(events),
    decreases events.len(),
{
    if events.len() > 0 {
        let a = sensor_step_spec(p, events[0]).1;
        let p2 = sensor_step_spec(p, events[0]).0;
        let rest = events.drop_first();
        lemma_one_measurement_one_write_per_edge(p2, rest);
        assert(sensor_run(p, events) == seq![a] + sensor_run(p2, rest));
        assert((seq![a] + sensor_run(p2, rest)).drop_first() =~= sensor_run(p2, rest));
        assert((seq![a] + sensor_run(p2, rest))[0] == a);
        assert(a is ReadRange <==> events[0] is EdgeDetected);
        assert(a is WriteIndicator <==> events[0] is MeasuredMm);
    }
}

/// The three events of one complete sensing cycle: an edge, its
/// measurement, and the acknowledged write.
pub open spec fn cycle_events(distance_mm: u32) -> Seq<SensorEvent> {
    seq![
        SensorEvent::EdgeDetected,
        SensorEvent::MeasuredMm { distance_mm },
        SensorEvent::WriteDone,
    ]
}

/// One complete cycle from the waiting phase issues exactly the three
/// actions read, write, wait — the write carrying the frame for the
/// sample's classification — and returns the loop to the waiting phase.
pub proof fn lemma_single_cycle(distance_mm: u32)
    ensures
        sensor_run(SensorPhase::AwaitEdge, cycle_events(distance_mm)) == seq![
            SensorAction::ReadRange,
            (SensorAction::WriteIndicator {
                frame: frame_spec(classify_spec(distance_mm), INDICATOR_BRIGHTNESS),
            }),
            SensorAction::WaitForEdge,
        ],
        sensor_final(SensorPhase::AwaitEdge, cycle_events(distance_mm)) == SensorPhase::AwaitEdge,
        sensor_trace_admissible(SensorPhase::AwaitEdge, cycle_events(distance_mm)),
{
    let evs = cycle_events(distance_mm);
    let frame = frame_spec(classify_spec(distance_mm), INDICATOR_BRIGHTNESS);
    let evs1 = evs.drop_first();
    let evs2 = evs1.drop_first();
    let evs3 = evs2.drop_first();
    assert(evs[0] == SensorEvent::EdgeDetected);
    assert(evs1 =~= seq![SensorEvent::MeasuredMm { distance_mm }, SensorEvent::WriteDone]);
    assert(evs2 =~= seq![SensorEvent::WriteDone]);
    assert(evs3 =~= Seq::<SensorEvent>::empty());
    assert(sensor_step_spec(SensorPhase::AwaitEdge, evs[0]) == (
        SensorPhase::Measure,
        SensorAction::ReadRange,
    ));
    assert(sensor_step_spec(SensorPhase::Measure, evs1[0]) == (
        (SensorPhase::Commit { frame }),
        (SensorAction::WriteIndicator { frame }),
    ));
    assert(sensor_step_spec(SensorPhase::Commit { frame }, evs2[0]) == (
        SensorPhase::AwaitEdge,
        SensorAction::WaitForEdge,
    ));
    assert(sensor_run(SensorPhase::AwaitEdge, evs3) =~= Seq::<SensorAction>::empty());
    assert(sensor_run(SensorPhase::Commit { frame }, evs2) =~= seq![SensorAction::WaitForEdge]);
    assert(sensor_run(SensorPhase::Measure, evs1) =~= seq![
        (SensorAction::WriteIndicator { frame }),
        SensorAction::WaitForEdge,
    ]);
    assert(sensor_run(SensorPhase::AwaitEdge, evs) =~= seq![
        SensorAction::ReadRange,
        (SensorAction::WriteIndicator { frame }),
        SensorAction::WaitForEdge,
    ]);
    assert(sensor_final(SensorPhase::AwaitEdge, evs3) == SensorPhase::AwaitEdge);
    assert(sensor_final(SensorPhase::Commit { frame }, evs2) == SensorPhase::AwaitEdge);
    assert(sensor_final(SensorPhase::Measure, evs1) == SensorPhase::AwaitEdge);
    assert(sensor_final(SensorPhase::AwaitEdge, evs) == SensorPhase::AwaitEdge);
    assert(sensor_trace_admissible(SensorPhase::AwaitEdge, evs3));
    assert(sensor_trace_admissible(SensorPhase::Commit { frame }, evs2));
    assert(sensor_trace_admissible(SensorPhase::Measure, evs1));
    assert(sensor_trace_admissible(SensorPhase::AwaitEdge, evs));
}

/// Appending event sequences appends the action sequences: the actions of
/// the whole are the actions of the first part followed by the actions of
/// the second, resumed from where the first part left the loop.
pub proof fn lemma_sensor_run_append(p: SensorPhase, e1: Seq<SensorEvent>, e2: Seq<SensorEvent>)
    ensures
        sensor_run(p, e1 + e2) == sensor_run(p, e1) + sensor_run(sensor_final(p, e1), e2),
    decreases e1.len(),
{
    if e1.len() == 0 {
        assert(e1 + e2 =~= e2);
        assert(sensor_run(p, e1) + sensor_run(p, e2) =~= sensor_run(p, e2));
    } else {
        let p2 = sensor_step_spec(p, e1[0]).0;
        let a = sensor_step_spec(p, e1[0]).1;
        assert((e1 + e2)[0] == e1[0]);
        assert((e1 + e2).drop_first() =~= e1.drop_first() + e2);
        lemma_sensor_run_append(p2, e1.drop_first(), e2);
        assert(sensor_run(p, e1 + e2) =~= sensor_run(p, e1) + sensor_run(sensor_final(p, e1), e2));
    }
}

/// Repeated clear decisions flicker nothing: two successive cycles whose
/// samples both sit at or above the threshold produce identical action
/// sequences — in particular, two identical clear indicator writes, one
/// per cycle, none omitted.
pub proof fn lemma_repeated_clear_identical_writes(d1: u32, d2: u32)
    requires
        d1 >= DISTANCE_THRESHOLD_MM,
        d2 >= DISTANCE_THRESHOLD_MM,
    ensures
        sensor_run(SensorPhase::AwaitEdge, cycle_events(d1) + cycle_events(d2)) == sensor_run(
            SensorPhase::AwaitEdge,
            cycle_events(d1),
        ) + sensor_run(SensorPhase::AwaitEdge, cycle_events(d2)),
        sensor_run(SensorPhase::AwaitEdge, cycle_events(d1)) == sensor_run(
            SensorPhase::AwaitEdge,
            cycle_events(d2),
        ),
        count_writes(sensor_run(SensorPhase::AwaitEdge, cycle_events(d1) + cycle_events(d2)))
            == 2,
{
    lemma_single_cycle(d1);
    lemma_single_cycle(d2);
    lemma_sensor_run_append(SensorPhase::AwaitEdge, cycle_events(d1), cycle_events(d2));
    assert(classify_spec(d1) == classify_spec(d2));
    let run = sensor_run(SensorPhase::AwaitEdge, cycle_events(d1) + cycle_events(d2));
    let frame = frame_spec(IndicatorColor::Clear, INDICATOR_BRIGHTNESS);
    assert(run =~= seq![
        SensorAction::ReadRange,
        (SensorAction::WriteIndicator { frame }),
        SensorAction::WaitForEdge,
        SensorAction::ReadRange,
        (SensorAction::WriteIndicator { frame }),
        SensorAction::WaitForEdge,
    ]);
    let t5 = run.drop_first();
    let t4 = t5.drop_first();
    let t3 = t4.drop_first();
    let t2 = t3.drop_first();
    let t1 = t2.drop_first();
    let t0 = t1.drop_first();
    assert(t5 =~= seq![
        (SensorAction::WriteIndicator { frame }),
        SensorAction::WaitForEdge,
        SensorAction::ReadRange,
        (SensorAction::WriteIndicator { frame }),
        SensorAction::WaitForEdge,
    ]);
    assert(t4 =~= seq![
        SensorAction::WaitForEdge,
        SensorAction::ReadRange,
        (SensorAction::WriteIndicator { frame }),
        SensorAction::WaitForEdge,
    ]);
    assert(t3 =~= seq![
        SensorAction::ReadRange,
        (SensorAction::WriteIndicator { frame }),
        SensorAction::WaitForEdge,
    ]);
    assert(t2 =~= seq![(SensorAction::WriteIndicator { frame }), SensorAction::WaitForEdge]);
    assert(t1 =~= seq![SensorAction::WaitForEdge]);
    assert(t0 =~= Seq::<SensorAction>::empty());
    assert(count_writes(t0) == 0);
    assert(count_writes(t1) == 0);
    assert(count_writes(t2) == 1);
    assert(count_writes(t3) == 1);
    assert(count_writes(t4) == 1);
    assert(count_writes(t5) == 2);
    assert(count_writes(run) == 2);
}

} // verus!
