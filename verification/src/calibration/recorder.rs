//! Step-by-step calibration recording state machine.
//!
//! Records 386 calibration steps sequentially, with support for both
//! OFF-gap-based and speed-change-based step advancement.
use super::sequence::elapsed_spec;
use super::{
    empty_calibration_table, is_off, is_on, CalibrationPoint, CalibrationTable, ANNOUNCE_MS,
    CAL_START_RPM, CAL_STEPS, CAL_STEP_RPM, OFF_DEBOUNCE_MS, OFF_THRESHOLD, ON_THRESHOLD,
    SIGNAL_TIMEOUT_MS, SPEED_CHANGE_SETTLE_MS, SPEED_CHANGE_THRESHOLD, STEP_RECORD_MS,
    STEP_SETTLE_MS,
};
use vstd::prelude::*;

verus! {

/// Events emitted by the recorder.
#[derive(Clone, Debug, PartialEq, Eq)]
pub enum CalEvent {
    /// No event -- still processing
    Idle,
    /// A step was recorded (index, expected_rpm, measured_duty)
    StepRecorded(u16, u16, u16),
    /// All steps complete
    Complete(CalibrationTable),
    /// Aborted due to signal loss
    Aborted,
}

/// Recorder states.
#[derive(Clone, Copy, Debug, PartialEq, Eq)]
pub enum RecState {
    /// Waiting for announce phase to finish
    Announce,
    /// Waiting for step signal to go ON
    WaitForStepOn,
    /// Signal ON, settling before recording
    StepSettling,
    /// Recording duty samples
    StepRecording,
    /// Waiting for the next step (either OFF gap or speed-change detection)
    WaitForNextStep,
}

/// What one reading did, apart from the state change.
pub enum StepOutcome {
    Nothing,
    Recorded { index: u16, rpm: u16, duty: u16 },
    Complete,
    Aborted,
}

/// The abstract state of a [`CalibrationRecorder`]; `points` and `count`
/// are the table recorded so far.
pub struct RecorderModel {
    pub state: RecState,
    pub step_index: u16,
    pub entered_ms: u64,
    pub duty_sum: u64,
    pub sample_count: u32,
    pub off_since_ms: u64,
    pub last_recorded_duty: u16,
    pub from_speed_change: bool,
    pub points: Seq<CalibrationPoint>,
    pub count: u16,
}

/// Expected RPM of calibration step `i`.
pub open spec fn step_rpm_spec(i: int) -> int {
    CAL_START_RPM + i * CAL_STEP_RPM
}

impl RecorderModel {
    /// Enter `state` at `now`.
    pub open spec fn enter(self, state: RecState, now: u64) -> RecorderModel {
        RecorderModel { state, entered_ms: now, ..self }
    }

    /// Start settling on a step (duty sums cleared).
    pub open spec fn start_settling(self, now: u64, from_speed_change: bool) -> RecorderModel {
        RecorderModel {
            state: RecState::StepSettling,
            entered_ms: now,
            duty_sum: 0,
            sample_count: 0,
            from_speed_change,
            ..self
        }
    }

    /// Average of the recorded samples (0 without samples).
    pub open spec fn average(self) -> int {
        if self.sample_count > 0 {
            (self.duty_sum as int) / (self.sample_count as int)
        } else {
            0
        }
    }

    /// Close the current step: store its averaged duty and move on.
    pub open spec fn finish(self) -> (RecorderModel, StepOutcome) {
        let avg = self.average() as u16;
        let rpm = step_rpm_spec(self.step_index as int) as u16;
        let i = self.step_index as int;
        let point = CalibrationPoint { expected_rpm: rpm, measured_duty: avg };
        let points = if i < CAL_STEPS { self.points.update(i, point) } else { self.points };
        let count = if i < CAL_STEPS { (i + 1) as u16 } else { self.count };
        (
            RecorderModel {
                state: RecState::WaitForNextStep,
                step_index: (i + 1) as u16,
                off_since_ms: 0,
                last_recorded_duty: avg,
                points,
                count,
                ..self
            },
            StepOutcome::Recorded { index: self.step_index, rpm, duty: avg },
        )
    }

    /// One duty reading at time `now`: the next state and what happened.
    pub open spec fn step(self, duty: u16, now: u64) -> (RecorderModel, StepOutcome) {
        let elapsed = elapsed_spec(now, self.entered_ms);
        let off = duty < OFF_THRESHOLD;
        match self.state {
            RecState::Announce => {
                if elapsed >= ANNOUNCE_MS {
                    (self.enter(RecState::WaitForStepOn, now), StepOutcome::Nothing)
                } else {
                    (self, StepOutcome::Nothing)
                }
            },
            RecState::WaitForStepOn => {
                if duty > ON_THRESHOLD {
                    (self.start_settling(now, false), StepOutcome::Nothing)
                } else if elapsed > SIGNAL_TIMEOUT_MS {
                    (self, StepOutcome::Aborted)
                } else {
                    (self, StepOutcome::Nothing)
                }
            },
            RecState::StepSettling => {
                let settle = if self.from_speed_change {
                    SPEED_CHANGE_SETTLE_MS
                } else {
                    STEP_SETTLE_MS
                };
                if off {
                    (self.enter(RecState::WaitForStepOn, now), StepOutcome::Nothing)
                } else if elapsed >= settle {
                    (
                        RecorderModel {
                            state: RecState::StepRecording,
                            entered_ms: now,
                            duty_sum: 0,
                            sample_count: 0,
                            ..self
                        },
                        StepOutcome::Nothing,
                    )
                } else {
                    (self, StepOutcome::Nothing)
                }
            },
            RecState::StepRecording => {
                if off {
                    if self.sample_count >= 3 {
                        self.finish()
                    } else {
                        (self.enter(RecState::WaitForStepOn, now), StepOutcome::Nothing)
                    }
                } else {
                    let acc = RecorderModel {
                        duty_sum: (self.duty_sum + duty) as u64,
                        sample_count: (self.sample_count + 1) as u32,
                        ..self
                    };
                    if elapsed >= STEP_RECORD_MS {
                        acc.finish()
                    } else {
                        (acc, StepOutcome::Nothing)
                    }
                }
            },
            RecState::WaitForNextStep => {
                if self.step_index >= CAL_STEPS {
                    (self, StepOutcome::Complete)
                } else if off {
                    let since = if self.off_since_ms == 0 { now } else { self.off_since_ms };
                    if elapsed_spec(now, since) >= OFF_DEBOUNCE_MS {
                        (
                            RecorderModel {
                                state: RecState::WaitForStepOn,
                                entered_ms: now,
                                off_since_ms: 0,
                                ..self
                            },
                            StepOutcome::Nothing,
                        )
                    } else {
                        (RecorderModel { off_since_ms: since, ..self }, StepOutcome::Nothing)
                    }
                } else {
                    let diff = if duty >= self.last_recorded_duty {
                        duty - self.last_recorded_duty
                    } else {
                        self.last_recorded_duty - duty
                    };
                    if diff > SPEED_CHANGE_THRESHOLD {
                        (
                            RecorderModel { off_since_ms: 0, ..self }.start_settling(now, true),
                            StepOutcome::Nothing,
                        )
                    } else {
                        (RecorderModel { off_since_ms: 0, ..self }, StepOutcome::Nothing)
                    }
                }
            },
        }
    }

    /// Whether a reading of `duty` in this state can be taken without the
    /// sample counter overflowing.
    pub open spec fn can_step(self, duty: u16) -> bool {
        (self.state == RecState::StepRecording && duty >= OFF_THRESHOLD) ==> self.sample_count
            < u32::MAX
    }
}

impl RecorderModel {
    /// The step bounds every recorder keeps: the index within the table,
    /// and below its end unless waiting for the next step.
    pub open spec fn steps_bounded(self) -> bool {
        &&& self.step_index <= CAL_STEPS
        &&& self.state != RecState::WaitForNextStep ==> self.step_index < CAL_STEPS
    }

    /// The table recorded so far has one point per finished step, in step
    /// order: point `i` holds the expected RPM of step `i`.
    pub open spec fn table_in_step_order(self) -> bool {
        &&& self.points.len() == CAL_STEPS
        &&& self.count == self.step_index
        &&& forall|i: int|
            0 <= i < self.count ==> (#[trigger] self.points[i]).expected_rpm == step_rpm_spec(i)
    }
}

/// Every reading keeps the recorded table in step order, and never changes
/// a point that was already recorded; a recorded step is the current step,
/// with its expected RPM, and moves the recorder to the next step (any other
/// reading keeps the step); a recorder that announced completion has filled
/// the whole table.
pub proof fn lemma_recorder_table_in_step_order(m: RecorderModel, duty: u16, now: u64)
    requires
        m.steps_bounded(),
        m.table_in_step_order(),
    ensures
        m.step(duty, now).0.steps_bounded(),
        m.step(duty, now).0.table_in_step_order(),
        forall|i: int| 0 <= i < m.count ==> #[trigger] m.step(duty, now).0.points[i] == m.points[i],
        m.step(duty, now).0.count >= m.count,
        m.step(duty, now).1 is Complete ==> m.count == CAL_STEPS && m.step_index == CAL_STEPS
            && m.step(duty, now).0.step_index == m.step_index,
        m.step(duty, now).1 matches StepOutcome::Recorded { index, rpm, duty: d } ==> index
            == m.step_index && rpm == step_rpm_spec(index as int) && m.step(duty, now).0.step_index
            == m.step_index + 1,
        !(m.step(duty, now).1 is Recorded) ==> m.step(duty, now).0.step_index == m.step_index,
{
    let n = m.step(duty, now).0;
    let i = m.step_index as int;
    if n.count != m.count {
        assert(n.points == m.points.update(i, n.points[i]));
        assert forall|k: int| 0 <= k < n.count implies (#[trigger] n.points[k]).expected_rpm
            == step_rpm_spec(k) by {
            if k < i {
                assert(n.points[k] == m.points[k]);
            }
        }
    }
}

/// The event a recorder reading reports, given its outcome and the table
/// recorded before the reading.
pub open spec fn event_for(
    outcome: StepOutcome,
    points: Seq<CalibrationPoint>,
    count: u16,
    event: CalEvent,
) -> bool {
    match outcome {
        StepOutcome::Nothing => event == CalEvent::Idle,
        StepOutcome::Recorded { index, rpm, duty } => event == CalEvent::StepRecorded(
            index,
            rpm,
            duty,
        ),
        StepOutcome::Complete => event matches CalEvent::Complete(t) && t.points@ == points
            && t.count == count,
        StepOutcome::Aborted => event == CalEvent::Aborted,
    }
}

/// Records 386 calibration steps sequentially.
pub struct CalibrationRecorder {
    state: RecState,
    step_index: u16,
    entered_ms: u64,
    duty_sum: u64,
    sample_count: u32,
    off_since_ms: u64,
    last_recorded_duty: u16,
    from_speed_change: bool,
    table: CalibrationTable,
}

impl View for CalibrationRecorder {
    type V = RecorderModel;

    closed spec fn view(&self) -> RecorderModel {
        RecorderModel {
            state: self.state,
            step_index: self.step_index,
            entered_ms: self.entered_ms,
            duty_sum: self.duty_sum,
            sample_count: self.sample_count,
            off_since_ms: self.off_since_ms,
            last_recorded_duty: self.last_recorded_duty,
            from_speed_change: self.from_speed_change,
            points: self.table.points@,
            count: self.table.count,
        }
    }
}

impl CalibrationRecorder {
    /// Step bounds and the sample sum staying within the sample count.
    #[verifier::type_invariant]
    closed spec fn inv(&self) -> bool {
        &&& self.step_index <= CAL_STEPS
        &&& self.state != RecState::WaitForNextStep ==> self.step_index < CAL_STEPS
        &&& self.duty_sum <= self.sample_count * 65535
        &&& self@.table_in_step_order()
    }

    /// A recorder that starts announcing at `start_ms`.
    pub fn new(start_ms: u64) -> (r: Self)
        ensures
            r@.state == RecState::Announce,
            r@.step_index == 0,
            r@.entered_ms == start_ms,
            r@.duty_sum == 0,
            r@.sample_count == 0,
            r@.off_since_ms == 0,
            r@.last_recorded_duty == 0,
            !r@.from_speed_change,
            r@.count == 0,
            r@.points.len() == CAL_STEPS,
            forall|i: int| 0 <= i < CAL_STEPS ==> #[trigger] r@.points[i] == (CalibrationPoint {
                expected_rpm: 0,
                measured_duty: 0,
            }),
    {
        CalibrationRecorder {
            state: RecState::Announce,
            step_index: 0,
            entered_ms: start_ms,
            duty_sum: 0,
            sample_count: 0,
            off_since_ms: 0,
            last_recorded_duty: 0,
            from_speed_change: false,
            table: empty_calibration_table(),
        }
    }

    /// Current step index (0-based).
    pub fn step_index(&self) -> (i: u16)
        ensures
            i == self@.step_index,
            i <= CAL_STEPS,
    {
        proof {
            use_type_invariant(self);
        }
        self.step_index
    }

    /// Whether we are in the recording sub-phase of a step.
    pub fn is_recording(&self) -> (r: bool)
        ensures
            r == (self@.state == RecState::StepRecording),
    {
        matches!(self.state, RecState::StepRecording)
    }

    /// Expected RPM for the current step.
    pub fn current_expected_rpm(&self) -> (rpm: u16)
        ensures
            rpm == step_rpm_spec(self@.step_index as int),
    {
        proof {
            use_type_invariant(self);
        }
        CAL_START_RPM + self.step_index * CAL_STEP_RPM
    }

    /// Whether a reading of `duty` can be taken (the sample counter of a
    /// recording step has room for it).
    pub fn accepts(&self, duty: u16) -> (b: bool)
        ensures
            b == self@.can_step(duty),
    {
        !(matches!(self.state, RecState::StepRecording) && duty >= OFF_THRESHOLD)
            || self.sample_count < u32::MAX
    }

    /// Feed a duty reading. Returns a `CalEvent`.
    pub fn update(&mut self, duty: u16, now_ms: u64) -> (event: CalEvent)
        requires
            old(self)@.can_step(duty),
        ensures
            final(self)@ == old(self)@.step(duty, now_ms).0,
            event_for(old(self)@.step(duty, now_ms).1, old(self)@.points, old(self)@.count, event),
            event matches CalEvent::Complete(t) ==> t.count == CAL_STEPS && forall|i: int|
                0 <= i < CAL_STEPS ==> (#[trigger] t.points@[i]).expected_rpm == step_rpm_spec(i),
    {
        proof {
            use_type_invariant(&*self);
        }
        match self.state {
            RecState::Announce => {
                if now_ms.saturating_sub(self.entered_ms) >= ANNOUNCE_MS {
                    self.state = RecState::WaitForStepOn;
                    self.entered_ms = now_ms;
                }
                CalEvent::Idle
            },
            RecState::WaitForStepOn => {
                let elapsed = now_ms.saturating_sub(self.entered_ms);
                if is_on(duty) {
                    self.state = RecState::StepSettling;
                    self.entered_ms = now_ms;
                    self.duty_sum = 0;
                    self.sample_count = 0;
                    self.from_speed_change = false;
                    CalEvent::Idle
                } else if elapsed > SIGNAL_TIMEOUT_MS {
                    CalEvent::Aborted
                } else {
                    CalEvent::Idle
                }
            },
            RecState::StepSettling => {
                let elapsed = now_ms.saturating_sub(self.entered_ms);
                if is_off(duty) {
                    self.state = RecState::WaitForStepOn;
                    self.entered_ms = now_ms;
                    return CalEvent::Idle;
                }
                let settle_ms = if self.from_speed_change {
                    SPEED_CHANGE_SETTLE_MS
                } else {
                    STEP_SETTLE_MS
                };
                if elapsed >= settle_ms {
                    self.state = RecState::StepRecording;
                    self.entered_ms = now_ms;
                    self.duty_sum = 0;
                    self.sample_count = 0;
                }
                CalEvent::Idle
            },
            RecState::StepRecording => {
                let elapsed = now_ms.saturating_sub(self.entered_ms);
                if is_off(duty) {
                    if self.sample_count >= 3 {
                        return self.finish_step();
                    }
                    self.state = RecState::WaitForStepOn;
                    self.entered_ms = now_ms;
                    return CalEvent::Idle;
                }
                proof {
                    assert((self.duty_sum + duty) as int <= (self.sample_count + 1) * 65535)
                        by (nonlinear_arith)
                        requires
                            self.duty_sum <= self.sample_count * 65535,
                            duty <= 65535,
                    ;
                    assert((self.sample_count + 1) * 65535 <= u32::MAX as int * 65535)
                        by (nonlinear_arith)
                        requires
                            self.sample_count < u32::MAX,
                    ;
                }
                self.sample_count = self.sample_count + 1;
                self.duty_sum = self.duty_sum + duty as u64;
                if elapsed >= STEP_RECORD_MS {
                    self.finish_step()
                } else {
                    CalEvent::Idle
                }
            },
            RecState::WaitForNextStep => {
                if self.step_index >= CAL_STEPS as u16 {
                    return CalEvent::Complete(self.table);
                }
                if is_off(duty) {
                    if self.off_since_ms == 0 {
                        self.off_since_ms = now_ms;
                    }
                    let off_elapsed = now_ms.saturating_sub(self.off_since_ms);
                    if off_elapsed >= OFF_DEBOUNCE_MS {
                        self.state = RecState::WaitForStepOn;
                        self.entered_ms = now_ms;
                        self.off_since_ms = 0;
                    }
                } else {
                    self.off_since_ms = 0;
                    let diff = if duty >= self.last_recorded_duty {
                        duty - self.last_recorded_duty
                    } else {
                        self.last_recorded_duty - duty
                    };
                    if diff > SPEED_CHANGE_THRESHOLD {
                        self.state = RecState::StepSettling;
                        self.entered_ms = now_ms;
                        self.duty_sum = 0;
                        self.sample_count = 0;
                        self.from_speed_change = true;
                    }
                }
                CalEvent::Idle
            },
        }
    }

    fn finish_step(&mut self) -> (event: CalEvent)
        requires
            old(self).step_index < CAL_STEPS,
            old(self).duty_sum <= old(self).sample_count * 65535,
        ensures
            final(self)@ == old(self)@.finish().0,
            event_for(old(self)@.finish().1, old(self)@.points, old(self)@.count, event),
    {
        let avg_duty = if self.sample_count > 0 {
            proof {
                assert((self.duty_sum as int) / (self.sample_count as int) <= 65535) by (nonlinear_arith)
                    requires
                        self.duty_sum <= self.sample_count * 65535,
                        self.sample_count > 0,
                ;
            }
            (self.duty_sum / self.sample_count as u64) as u16
        } else {
            0
        };
        proof {
            use_type_invariant(&*self);
        }
        let expected_rpm = self.current_expected_rpm();
        let idx = self.step_index as usize;
        let mut table = self.table;
        table.points[idx] = CalibrationPoint { expected_rpm, measured_duty: avg_duty };
        table.count = (idx + 1) as u16;
        let event = CalEvent::StepRecorded(self.step_index, expected_rpm, avg_duty);
        proof {
            assert forall|k: int| 0 <= k < table.count implies (#[trigger] table.points@[k]).expected_rpm
                == step_rpm_spec(k) by {
                if k < idx {
                    assert(table.points@[k] == self.table.points@[k]);
                }
            }
        }
        *self = CalibrationRecorder {
            state: RecState::WaitForNextStep,
            step_index: self.step_index + 1,
            off_since_ms: 0,
            last_recorded_duty: avg_duty,
            table,
            ..*self
        };
        event
    }
}

} // verus!
