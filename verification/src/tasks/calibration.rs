//! Decisions of the calibration task: which command sequence fired, the
//! status shown while recording, and the JSON dump of a calibration table.
use crate::calibration::recorder::{event_for, step_rpm_spec, RecState, RecorderModel};
use crate::calibration::table::{zero_padded, StoreModel};
use crate::calibration::{apply_calibration, clear_calibration, read_calibration_table, CalEvent, CalibrationStore};
use crate::state::{ControllerModel, ControllerState};
use crate::calibration::sequence::SequenceModel;
use crate::calibration::{
    CalPhase, CalibrationPoint, CalibrationRecorder, CalibrationStatus, CalibrationTable, SequenceDetector,
    CAL_STEPS,
};
use crate::flash_store::{compute_checksum, crc16_spec, points_bytes};
use vstd::prelude::*;

verus! {

/// `{"v":1,"type":"carvera","n":`
pub const JSON_HEAD: [u8; 28] = [
    0x7B, 0x22, 0x76, 0x22, 0x3A, 0x31, 0x2C, 0x22, 0x74, 0x79, 0x70, 0x65, 0x22, 0x3A, 0x22, 0x63,
    0x61, 0x72, 0x76, 0x65, 0x72, 0x61, 0x22, 0x2C, 0x22, 0x6E, 0x22, 0x3A,
];

/// `,"crc":"0x`
pub const JSON_CRC: [u8; 10] = [0x2C, 0x22, 0x63, 0x72, 0x63, 0x22, 0x3A, 0x22, 0x30, 0x78];

/// `","cal":[`
pub const JSON_CAL: [u8; 9] = [0x22, 0x2C, 0x22, 0x63, 0x61, 0x6C, 0x22, 0x3A, 0x5B];

/// `]}`
pub const JSON_TAIL: [u8; 2] = [0x5D, 0x7D];

/// ASCII comma.
pub const COMMA: u8 = 0x2C;

/// ASCII '['.
pub const OPEN_BRACKET: u8 = 0x5B;

/// ASCII ']'.
pub const CLOSE_BRACKET: u8 = 0x5D;

/// Decimal digits of `v`, without leading zeros ("0" for zero).
pub open spec fn decimal(v: nat) -> Seq<u8>
    decreases v,
{
    if v < 10 {
        seq![(48 + v) as u8]
    } else {
        decimal(v / 10).push((48 + v % 10) as u8)
    }
}

/// Uppercase hex digit of a nibble.
pub open spec fn hex_digit(n: int) -> u8 {
    if n < 10 {
        (48 + n) as u8
    } else {
        (55 + n) as u8
    }
}

/// Four uppercase hex digits of `v`.
pub open spec fn hex4(v: u16) -> Seq<u8> {
    seq![hex_digit((v / 4096) as int), hex_digit((v / 256 % 16) as int), hex_digit((v / 16 % 16) as int), hex_digit((v % 16) as int)]
}

/// `[rpm,duty]` entries of the first `n` points, comma separated.
pub open spec fn json_entries(points: Seq<CalibrationPoint>, n: nat) -> Seq<u8>
    decreases n,
{
    if n == 0 {
        Seq::empty()
    } else {
        let p = points[n - 1];
        let entry = seq![OPEN_BRACKET] + decimal(p.expected_rpm as nat) + seq![COMMA] + decimal(
            p.measured_duty as nat,
        ) + seq![CLOSE_BRACKET];
        if n == 1 {
            entry
        } else {
            json_entries(points, (n - 1) as nat) + seq![COMMA] + entry
        }
    }
}

/// The single-line JSON dump of a table:
/// `{"v":1,"type":"carvera","n":386,"crc":"0xABCD","cal":[[750,1234],...]}`.
pub open spec fn cal_table_json_spec(table: CalibrationTable) -> Seq<u8> {
    json_spec(table.points@, table.count)
}

/// The JSON dump of the first `count` of `points`.
pub open spec fn json_spec(points: Seq<CalibrationPoint>, count: u16) -> Seq<u8> {
    let crc = crc16_spec(points_bytes(points, count as int));
    JSON_HEAD@ + decimal(count as nat) + JSON_CRC@ + hex4(crc) + JSON_CAL@ + json_entries(
        points,
        count as nat,
    ) + JSON_TAIL@
}

fn push_all(out: &mut Vec<u8>, text: &[u8])
    ensures
        final(out)@ == old(out)@ + text@,
{
    let mut k: usize = 0;
    while k < text.len()
        invariant
            k <= text@.len(),
            out@ == old(out)@ + text@.take(k as int),
        decreases text@.len() - k,
    {
        out.push(text[k]);
        k = k + 1;
        assert(text@.take(k as int) =~= text@.take(k - 1).push(text@[k - 1]));
    }
    assert(text@.take(text@.len() as int) =~= text@);
}

/// Append `val` in decimal without leading zeros.
fn push_decimal(out: &mut Vec<u8>, val: u16)
    ensures
        final(out)@ == old(out)@ + decimal(val as nat),
    decreases val,
{
    if val >= 10 {
        push_decimal(out, val / 10);
    }
    out.push(0x30 + (val % 10) as u8);
    proof {
        if val < 10 {
            assert(decimal(val as nat) =~= seq![(48 + val) as u8]);
        }
    }
    assert(final(out)@ =~= old(out)@ + decimal(val as nat));
}

fn hex_char(n: u16) -> (c: u8)
    requires
        n < 16,
    ensures
        c == hex_digit(n as int),
{
    if n < 10 {
        0x30 + n as u8
    } else {
        0x37 + n as u8
    }
}

/// Append `val` as four uppercase hex digits.
fn push_hex_u16(out: &mut Vec<u8>, val: u16)
    ensures
        final(out)@ == old(out)@ + hex4(val),
{
    out.push(hex_char(val / 4096));
    out.push(hex_char(val / 256 % 16));
    out.push(hex_char(val / 16 % 16));
    out.push(hex_char(val % 16));
    assert(final(out)@ =~= old(out)@ + hex4(val));
}

/// The calibration table as single-line JSON (for the calibration dump).
pub fn cal_table_json(table: &CalibrationTable) -> (json: Vec<u8>)
    requires
        table.count <= CAL_STEPS,
    ensures
        json@ == cal_table_json_spec(*table),
{
    let crc = compute_checksum(table);
    let mut out: Vec<u8> = Vec::new();
    push_all(&mut out, JSON_HEAD.as_slice());
    push_decimal(&mut out, table.count);
    push_all(&mut out, JSON_CRC.as_slice());
    push_hex_u16(&mut out, crc);
    push_all(&mut out, JSON_CAL.as_slice());
    let ghost prefix = out@;
    let n = table.count as usize;
    let mut i: usize = 0;
    while i < n
        invariant
            n == table.count,
            n <= CAL_STEPS,
            i <= n,
            out@ == prefix + json_entries(table.points@, i as nat),
        decreases n - i,
    {
        let ghost before = out@;
        if i > 0 {
            out.push(COMMA);
        }
        out.push(OPEN_BRACKET);
        push_decimal(&mut out, table.points[i].expected_rpm);
        out.push(COMMA);
        push_decimal(&mut out, table.points[i].measured_duty);
        out.push(CLOSE_BRACKET);
        proof {
            let p = table.points@[i as int];
            let entry = seq![OPEN_BRACKET] + decimal(p.expected_rpm as nat) + seq![COMMA]
                + decimal(p.measured_duty as nat) + seq![CLOSE_BRACKET];
            if i == 0 {
                assert(json_entries(table.points@, 1) =~= entry);
                assert(out@ =~= prefix + json_entries(table.points@, 1));
            } else {
                assert(json_entries(table.points@, (i + 1) as nat) =~= json_entries(
                    table.points@,
                    i as nat,
                ) + seq![COMMA] + entry);
                assert(out@ =~= prefix + json_entries(table.points@, (i + 1) as nat));
            }
        }
        i = i + 1;
    }
    push_all(&mut out, JSON_TAIL.as_slice());
    assert(out@ =~= cal_table_json_spec(*table));
    out
}

/// Which command sequence completed.
#[derive(Clone, Copy, Debug, PartialEq, Eq)]
pub enum SequenceCommand {
    NoCommand,
    /// 9000 -> 6000 -> 12000: dump the table.
    Dump,
    /// 12000 -> 6000 -> 9000: clear the table.
    Clear,
    /// 6000 -> 12000 -> 9000: record a new calibration.
    Calibrate,
}

/// The three sequence detectors of the calibration task.
pub struct AllDetectors {
    cal: SequenceDetector,
    clear: SequenceDetector,
    dump: SequenceDetector,
}

/// The abstract state of [`AllDetectors`].
pub struct DetectorsModel {
    pub cal: SequenceModel,
    pub clear: SequenceModel,
    pub dump: SequenceModel,
}

impl View for AllDetectors {
    type V = DetectorsModel;

    closed spec fn view(&self) -> DetectorsModel {
        DetectorsModel { cal: self.cal@, clear: self.clear@, dump: self.dump@ }
    }
}

impl DetectorsModel {
    /// One reading: the dump detector sees it first; the clear detector only
    /// if dump did not fire, the calibrate detector only if neither fired.
    pub open spec fn step(self, duty: u16, now: u64) -> (DetectorsModel, SequenceCommand) {
        let (dump, d) = self.dump.step(duty, now);
        if d {
            (DetectorsModel { dump, ..self }, SequenceCommand::Dump)
        } else {
            let (clear, c) = self.clear.step(duty, now);
            if c {
                (DetectorsModel { dump, clear, ..self }, SequenceCommand::Clear)
            } else {
                let (cal, k) = self.cal.step(duty, now);
                (
                    DetectorsModel { dump, clear, cal },
                    if k {
                        SequenceCommand::Calibrate
                    } else {
                        SequenceCommand::NoCommand
                    },
                )
            }
        }
    }
}

impl AllDetectors {
    /// Fresh detectors for the calibrate (6000 -> 12000 -> 9000), clear
    /// (12000 -> 6000 -> 9000) and dump (9000 -> 6000 -> 12000) sequences.
    pub fn new() -> (d: Self)
        ensures
            d@.cal.notes@ == seq![6000u16, 12000u16, 9000u16],
            d@.clear.notes@ == seq![12000u16, 6000u16, 9000u16],
            d@.dump.notes@ == seq![9000u16, 6000u16, 12000u16],
            d@.cal.state == crate::calibration::sequence::SeqState::Idle,
            d@.clear.state == crate::calibration::sequence::SeqState::Idle,
            d@.dump.state == crate::calibration::sequence::SeqState::Idle,
    {
        let d = AllDetectors {
            cal: SequenceDetector::new(),
            clear: SequenceDetector::new_with_notes([12000, 6000, 9000]),
            dump: SequenceDetector::new_with_notes([9000, 6000, 12000]),
        };
        assert(d.clear@.notes@ =~= seq![12000u16, 6000u16, 9000u16]);
        assert(d.dump@.notes@ =~= seq![9000u16, 6000u16, 12000u16]);
        d
    }

    /// Whether any detector is partway through its pattern (suppresses stall detection).
    pub fn any_active(&self) -> (a: bool)
        ensures
            a == (self@.cal.state != crate::calibration::sequence::SeqState::Idle
                || self@.clear.state != crate::calibration::sequence::SeqState::Idle
                || self@.dump.state != crate::calibration::sequence::SeqState::Idle),
    {
        self.cal.is_active() || self.clear.is_active() || self.dump.is_active()
    }

    /// Feed a duty reading to the detectors; returns the command that completed.
    pub fn update(&mut self, duty: u16, now_ms: u64) -> (cmd: SequenceCommand)
        ensures
            (final(self)@, cmd) == old(self)@.step(duty, now_ms),
    {
        if self.dump.update(duty, now_ms) {
            SequenceCommand::Dump
        } else if self.clear.update(duty, now_ms) {
            SequenceCommand::Clear
        } else if self.cal.update(duty, now_ms) {
            SequenceCommand::Calibrate
        } else {
            SequenceCommand::NoCommand
        }
    }
}

/// The status shown while recording: the 1-based step, its expected RPM,
/// the live duty and whether samples are being recorded.
pub fn recording_status(recorder: &CalibrationRecorder, duty: u16) -> (s: CalibrationStatus)
    ensures
        s == (CalibrationStatus {
            phase: CalPhase::Recording,
            step: (recorder@.step_index + 1) as u16,
            total_steps: CAL_STEPS as u16,
            expected_rpm: step_rpm_spec(recorder@.step_index as int) as u16,
            measured_duty: duty,
            recording: recorder@.state == RecState::StepRecording,
        }),
{
    CalibrationStatus {
        phase: CalPhase::Recording,
        step: recorder.step_index() + 1,
        total_steps: CAL_STEPS as u16,
        expected_rpm: recorder.current_expected_rpm(),
        measured_duty: duty,
        recording: recorder.is_recording(),
    }
}

/// The idle status of a phase: step 0, no RPM or duty, not recording.
pub fn phase_status(phase: CalPhase, step: u16, total_steps: u16) -> (s: CalibrationStatus)
    ensures
        s == (CalibrationStatus {
            phase,
            step,
            total_steps,
            expected_rpm: 0,
            measured_duty: 0,
            recording: false,
        }),
{
    CalibrationStatus { phase, step, total_steps, expected_rpm: 0, measured_duty: 0, recording: false }
}

/// Loop interval of the calibration task (20ms = 50Hz).
pub const CAL_INTERVAL_MS: u64 = 20;

/// How long the "loaded" or "no cal" message shows at boot.
pub const BOOT_MESSAGE_MS: u64 = 2_000;

/// How long the "complete", "aborted" or "cleared" message shows.
pub const RESULT_MESSAGE_MS: u64 = 5_000;

/// The status at boot: the calibration found in flash (which becomes the
/// active calibration) or none.
pub open spec fn boot_status_spec(loaded: Option<CalibrationTable>) -> CalibrationStatus {
    match loaded {
        Some(t) => CalibrationStatus {
            phase: CalPhase::Loaded,
            step: 0,
            total_steps: t.count,
            expected_rpm: 0,
            measured_duty: 0,
            recording: false,
        },
        None => CalibrationStatus {
            phase: CalPhase::NoCal,
            step: 0,
            total_steps: CAL_STEPS as u16,
            expected_rpm: 0,
            measured_duty: 0,
            recording: false,
        },
    }
}

/// The idle status of a phase.
pub open spec fn idle_status(phase: CalPhase, step: u16, total_steps: u16) -> CalibrationStatus {
    CalibrationStatus { phase, step, total_steps, expected_rpm: 0, measured_duty: 0, recording: false }
}

/// What the calibration task must do after a reading.
pub enum CalAction {
    /// Nothing: still listening (stall suppression follows the detectors).
    Listening,
    /// The dump sequence: print this JSON of the active table, if there is one.
    Dump(Option<Vec<u8>>),
    /// The clear sequence: erase the calibration sector, then `finish_clear`.
    EraseFlash,
    /// The calibrate sequence: publish this status; recording begins.
    StartRecording(CalibrationStatus),
    /// A recording reading: publish this status; `Some` with a recorded step
    /// (index, expected RPM, measured duty).
    Recording(CalibrationStatus, Option<(u16, u16, u16)>),
    /// Recording complete: publish the status, print the JSON, write the
    /// table to flash, then `finish_calibration` with the write's outcome.
    Complete(CalibrationStatus, CalibrationTable, Vec<u8>),
    /// Signal lost: publish the recording status and then the aborted
    /// status, show it for `RESULT_MESSAGE_MS`, then `end_command`.
    Aborted(CalibrationStatus, CalibrationStatus),
}

/// The abstract state of a [`CalibrationTask`].
pub struct CalTaskModel {
    pub detectors: DetectorsModel,
    /// The recording in progress, if any.
    pub recorder: Option<RecorderModel>,
}

/// Fresh sequence detectors.
pub open spec fn fresh_detectors(d: DetectorsModel) -> bool {
    &&& d.cal.notes@ == seq![6000u16, 12000u16, 9000u16]
    &&& d.clear.notes@ == seq![12000u16, 6000u16, 9000u16]
    &&& d.dump.notes@ == seq![9000u16, 6000u16, 12000u16]
    &&& d.cal.state == crate::calibration::sequence::SeqState::Idle
    &&& d.clear.state == crate::calibration::sequence::SeqState::Idle
    &&& d.dump.state == crate::calibration::sequence::SeqState::Idle
}

/// Whether any detector is partway through its pattern.
pub open spec fn detectors_active(d: DetectorsModel) -> bool {
    d.cal.state != crate::calibration::sequence::SeqState::Idle
        || d.clear.state != crate::calibration::sequence::SeqState::Idle
        || d.dump.state != crate::calibration::sequence::SeqState::Idle
}

/// The decisions of the calibration task between its flash accesses and
/// timers: the command detectors while listening, the recorder while
/// recording.
pub struct CalibrationTask {
    detectors: AllDetectors,
    recorder: Option<CalibrationRecorder>,
}

impl View for CalibrationTask {
    type V = CalTaskModel;

    closed spec fn view(&self) -> CalTaskModel {
        CalTaskModel {
            detectors: self.detectors@,
            recorder: match self.recorder {
                Some(r) => Some(r@),
                None => None,
            },
        }
    }
}

impl CalibrationTask {
    /// The task after boot: listening with fresh detectors.
    pub fn new() -> (t: Self)
        ensures
            fresh_detectors(t@.detectors),
            t@.recorder is None,
    {
        CalibrationTask { detectors: AllDetectors::new(), recorder: None }
    }

    /// Boot: a valid table read from flash becomes the active calibration.
    /// Returns the status to show for `BOOT_MESSAGE_MS`.
    pub fn boot(store: &mut CalibrationStore, loaded: Option<CalibrationTable>) -> (s: CalibrationStatus)
        requires
            loaded matches Some(t) ==> t.count <= CAL_STEPS,
        ensures
            s == boot_status_spec(loaded),
            final(store)@ == match loaded {
                Some(t) => old(store)@.with_table(t.points@, t.count),
                None => old(store)@,
            },
    {
        match loaded {
            Some(table) => {
                apply_calibration(store, &table);
                phase_status(CalPhase::Loaded, 0, table.count)
            },
            None => phase_status(CalPhase::NoCal, 0, CAL_STEPS as u16),
        }
    }

    /// The status while listening for command sequences.
    pub fn detecting_status() -> (s: CalibrationStatus)
        ensures
            s == idle_status(CalPhase::Detecting, 0, CAL_STEPS as u16),
    {
        phase_status(CalPhase::Detecting, 0, CAL_STEPS as u16)
    }

    /// Whether a recording is in progress.
    pub fn is_recording(&self) -> (r: bool)
        ensures
            r == (self@.recorder is Some),
    {
        self.recorder.is_some()
    }

    /// Whether a reading of `duty` can be taken without the recorder's
    /// sample counter overflowing.
    pub open spec fn can_tick(self, duty: u16) -> bool {
        self@.recorder matches Some(r) ==> r.can_step(duty)
    }

    /// Whether a reading of `duty` can be taken (see [`Self::can_tick`]).
    pub fn accepts(&self, duty: u16) -> (b: bool)
        ensures
            b == self.can_tick(duty),
    {
        match &self.recorder {
            Some(r) => r.accepts(duty),
            None => true,
        }
    }

    /// One reading of the measured duty at `now_ms`. While listening: a
    /// completed command sequence starts its command (the stall suppression
    /// and correction bypass are set for it), otherwise stall suppression
    /// follows whether any sequence is partway. While recording: the
    /// recorder takes the reading.
    pub fn tick(
        &mut self,
        duty: u16,
        now_ms: u64,
        state: &mut ControllerState,
        store: &mut CalibrationStore,
    ) -> (action: CalAction)
        requires
            old(self).can_tick(duty),
        ensures
            match old(self)@.recorder {
                None => {
                    let (d, cmd) = old(self)@.detectors.step(duty, now_ms);
                    match cmd {
                        SequenceCommand::NoCommand => {
                            &&& action is Listening
                            &&& final(self)@ == (CalTaskModel { detectors: d, recorder: None })
                            &&& final(state)@ == (ControllerModel {
                                cal_sequence_active: detectors_active(d),
                                ..old(state)@
                            })
                            &&& final(store)@ == old(store)@
                        },
                        SequenceCommand::Dump => {
                            &&& action matches CalAction::Dump(j) && (match old(store)@.table_read() {
                                None => j is None,
                                Some(pts) => j matches Some(v) && v@ == json_spec(
                                    pts,
                                    old(store)@.count,
                                ),
                            })
                            &&& fresh_detectors(final(self)@.detectors)
                            &&& final(self)@.recorder is None
                            &&& final(state)@ == (ControllerModel {
                                cal_sequence_active: false,
                                ..old(state)@
                            })
                            &&& final(store)@ == (StoreModel { recording: false, ..old(store)@ })
                        },
                        SequenceCommand::Clear => {
                            &&& action is EraseFlash
                            &&& final(self)@ == (CalTaskModel { detectors: d, recorder: None })
                            &&& final(state)@ == (ControllerModel {
                                cal_sequence_active: true,
                                ..old(state)@
                            })
                            &&& final(store)@ == (StoreModel { recording: true, ..old(store)@ })
                        },
                        SequenceCommand::Calibrate => {
                            &&& action == CalAction::StartRecording(
                                idle_status(CalPhase::SequenceDetected, 0, CAL_STEPS as u16),
                            )
                            &&& final(self)@.detectors == d
                            &&& final(self)@.recorder matches Some(r) && r.state == RecState::Announce
                                && r.step_index == 0 && r.entered_ms == now_ms && r.count == 0
                                && r.sample_count == 0 && r.duty_sum == 0
                            &&& final(state)@ == (ControllerModel {
                                cal_sequence_active: true,
                                ..old(state)@
                            })
                            &&& final(store)@ == (StoreModel { recording: true, ..old(store)@ })
                        },
                    }
                },
                Some(r) => {
                    let (n, outcome) = r.step(duty, now_ms);
                    let status = CalibrationStatus {
                        phase: CalPhase::Recording,
                        step: (n.step_index + 1) as u16,
                        total_steps: CAL_STEPS as u16,
                        expected_rpm: step_rpm_spec(n.step_index as int) as u16,
                        measured_duty: duty,
                        recording: n.state == RecState::StepRecording,
                    };
                    &&& final(self)@ == (CalTaskModel { detectors: old(self)@.detectors, recorder: Some(n) })
                    &&& final(state)@ == old(state)@
                    &&& final(store)@ == old(store)@
                    &&& match outcome {
                        crate::calibration::recorder::StepOutcome::Nothing => action == CalAction::Recording(status, None),
                        crate::calibration::recorder::StepOutcome::Recorded { index, rpm, duty } =>
                            action == CalAction::Recording(status, Some((index, rpm, duty))),
                        crate::calibration::recorder::StepOutcome::Complete => action matches CalAction::Complete(s, t, j)
                            && s == status && t.points@ == r.points && t.count == r.count
                            && t.count == CAL_STEPS && j@ == json_spec(r.points, r.count),
                        crate::calibration::recorder::StepOutcome::Aborted => action == CalAction::Aborted(
                            status,
                            idle_status(CalPhase::Aborted, n.step_index, CAL_STEPS as u16),
                        ),
                    }
                },
            },
    {
        let current = self.recorder.take();
        match current {
            None => {
                let cmd = self.detectors.update(duty, now_ms);
                match cmd {
                    SequenceCommand::NoCommand => {
                        state.set_cal_sequence_active(self.detectors.any_active());
                        CalAction::Listening
                    },
                    SequenceCommand::Dump => {
                        let json = match read_calibration_table(store) {
                            Some(table) => Some(cal_table_json(&table)),
                            None => None,
                        };
                        state.set_cal_sequence_active(false);
                        store.set_recording(false);
                        self.detectors = AllDetectors::new();
                        CalAction::Dump(json)
                    },
                    SequenceCommand::Clear => {
                        state.set_cal_sequence_active(true);
                        store.set_recording(true);
                        CalAction::EraseFlash
                    },
                    SequenceCommand::Calibrate => {
                        state.set_cal_sequence_active(true);
                        store.set_recording(true);
                        self.recorder = Some(CalibrationRecorder::new(now_ms));
                        CalAction::StartRecording(
                            phase_status(CalPhase::SequenceDetected, 0, CAL_STEPS as u16),
                        )
                    },
                }
            },
            Some(mut recorder) => {
                let event = recorder.update(duty, now_ms);
                let status = recording_status(&recorder, duty);
                let step = recorder.step_index();
                self.recorder = Some(recorder);
                match event {
                    CalEvent::Idle => CalAction::Recording(status, None),
                    CalEvent::StepRecorded(index, rpm, measured) => CalAction::Recording(
                        status,
                        Some((index, rpm, measured)),
                    ),
                    CalEvent::Complete(table) => {
                        let json = cal_table_json(&table);
                        CalAction::Complete(status, table, json)
                    },
                    CalEvent::Aborted => CalAction::Aborted(
                        status,
                        phase_status(CalPhase::Aborted, step, CAL_STEPS as u16),
                    ),
                }
            },
        }
    }

    /// After the calibration sector was erased (whatever the outcome): the
    /// active calibration is cleared. Returns the "cleared" status, shown
    /// for `RESULT_MESSAGE_MS`, and the "no cal" status, shown for
    /// `BOOT_MESSAGE_MS`; then `end_command`.
    pub fn finish_clear(store: &mut CalibrationStore) -> (s: (CalibrationStatus, CalibrationStatus))
        ensures
            final(store)@ == (StoreModel { count: 0, ..old(store)@ }),
            s.0 == idle_status(CalPhase::Cleared, 0, 0),
            s.1 == idle_status(CalPhase::NoCal, 0, CAL_STEPS as u16),
    {
        clear_calibration(store);
        (phase_status(CalPhase::Cleared, 0, 0), phase_status(CalPhase::NoCal, 0, CAL_STEPS as u16))
    }

    /// After a completed recording was written to flash: the table becomes
    /// the active calibration whatever the write's outcome. Returns the
    /// status to show for `RESULT_MESSAGE_MS`: complete, or aborted when
    /// the write failed; then `end_command`.
    pub fn finish_calibration(
        store: &mut CalibrationStore,
        table: &CalibrationTable,
        flash_ok: bool,
    ) -> (s: CalibrationStatus)
        requires
            table.count <= CAL_STEPS,
        ensures
            final(store)@ == old(store)@.with_table(table.points@, table.count),
            s == idle_status(
                if flash_ok { CalPhase::Complete } else { CalPhase::Aborted },
                table.count,
                table.count,
            ),
    {
        apply_calibration(store, table);
        if flash_ok {
            phase_status(CalPhase::Complete, table.count, table.count)
        } else {
            phase_status(CalPhase::Aborted, table.count, table.count)
        }
    }

    /// The end of a command: stall suppression and the correction bypass
    /// are lifted, the detectors start over and any recording is dropped.
    /// Returns the "detecting" status to publish.
    pub fn end_command(
        &mut self,
        state: &mut ControllerState,
        store: &mut CalibrationStore,
    ) -> (s: CalibrationStatus)
        ensures
            fresh_detectors(final(self)@.detectors),
            final(self)@.recorder is None,
            final(state)@ == (ControllerModel { cal_sequence_active: false, ..old(state)@ }),
            final(store)@ == (StoreModel { recording: false, ..old(store)@ }),
            s == idle_status(CalPhase::Detecting, 0, CAL_STEPS as u16),
    {
        state.set_cal_sequence_active(false);
        store.set_recording(false);
        *self = CalibrationTask::new();
        phase_status(CalPhase::Detecting, 0, CAL_STEPS as u16)
    }
}

} // verus!
