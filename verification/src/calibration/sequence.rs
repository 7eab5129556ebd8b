//! Sequence detection for calibration start patterns.
//!
//! Detects 3-note zigzag patterns (e.g., 6000 -> 12000 -> 9000 RPM) to trigger
//! calibration, clear, or dump commands.
use super::{
    duty_matches_speed, is_off, matches_speed_spec, OFF_THRESHOLD, SEQ_NOTE_MAX_MS,
    SEQ_NOTE_MIN_MS, SEQ_TRANSITION_GRACE_MS,
};
use vstd::prelude::*;

verus! {

/// States of the sequence detector.
#[derive(Clone, Copy, Debug, PartialEq, Eq)]
pub enum SeqState {
    Idle,
    NoteAOn,
    NoteBOn,
    NoteCOn,
}

/// The abstract state of a [`SequenceDetector`].
pub struct SequenceModel {
    pub state: SeqState,
    pub entered_ms: u64,
    /// 0 = no mismatch active
    pub mismatch_since_ms: u64,
    pub notes: [u16; 3],
}

/// Milliseconds from `since` to `now`, zero when `now` is earlier.
pub open spec fn elapsed_spec(now: u64, since: u64) -> int {
    if now >= since {
        now - since
    } else {
        0
    }
}

impl SequenceModel {
    /// Back to Idle with timers cleared; the notes are kept.
    pub open spec fn reset(self) -> SequenceModel {
        SequenceModel { state: SeqState::Idle, entered_ms: 0, mismatch_since_ms: 0, notes: self.notes }
    }

    /// Duty that matches neither the held nor the awaited note: start (or
    /// continue) the mismatch timer and give up once it exceeds the grace period.
    pub open spec fn on_mismatch(self, now: u64) -> SequenceModel {
        let since = if self.mismatch_since_ms == 0 { now } else { self.mismatch_since_ms };
        if elapsed_spec(now, since) > SEQ_TRANSITION_GRACE_MS {
            self.reset()
        } else {
            SequenceModel { mismatch_since_ms: since, ..self }
        }
    }

    /// Holding note `cur`, waiting for note `next` (which leads to state `to`).
    pub open spec fn on_note(self, duty: u16, now: u64, cur: u16, next: u16, to: SeqState) -> SequenceModel {
        let elapsed = elapsed_spec(now, self.entered_ms);
        if elapsed > SEQ_NOTE_MAX_MS {
            self.reset()
        } else if elapsed >= SEQ_NOTE_MIN_MS && matches_speed_spec(duty as int, next as int) {
            SequenceModel { state: to, entered_ms: now, mismatch_since_ms: 0, notes: self.notes }
        } else if matches_speed_spec(duty as int, cur as int) || matches_speed_spec(
            duty as int,
            next as int,
        ) {
            SequenceModel { mismatch_since_ms: 0, ..self }
        } else {
            self.on_mismatch(now)
        }
    }

    /// One duty reading: the next state, and whether the full sequence completed.
    pub open spec fn step(self, duty: u16, now: u64) -> (SequenceModel, bool) {
        let n0 = self.notes@[0];
        let n1 = self.notes@[1];
        let n2 = self.notes@[2];
        match self.state {
            SeqState::Idle => {
                if matches_speed_spec(duty as int, n0 as int) {
                    (SequenceModel { state: SeqState::NoteAOn, entered_ms: now, ..self }, false)
                } else {
                    (self, false)
                }
            },
            SeqState::NoteAOn => (self.on_note(duty, now, n0, n1, SeqState::NoteBOn), false),
            SeqState::NoteBOn => (self.on_note(duty, now, n1, n2, SeqState::NoteCOn), false),
            SeqState::NoteCOn => {
                let elapsed = elapsed_spec(now, self.entered_ms);
                let off = duty < OFF_THRESHOLD;
                if elapsed > SEQ_NOTE_MAX_MS {
                    (self.reset(), false)
                } else if elapsed >= SEQ_NOTE_MIN_MS && off {
                    (self.reset(), true)
                } else if matches_speed_spec(duty as int, n2 as int) || off {
                    (SequenceModel { mismatch_since_ms: 0, ..self }, false)
                } else {
                    (self.on_mismatch(now), false)
                }
            },
        }
    }
}

/// Detects a 3-note zigzag sequence with configurable RPM values:
///   notes[0] -> notes[1] -> notes[2] -> OFF
///
/// Speed changes happen directly (no M5 stops between notes). The final
/// OFF after note C completes detection. Zigzag patterns prevent false
/// triggers during normal machining ramps.
///
/// Default (calibrate): 6000 -> 12000 -> 9000 RPM
/// Clear: 12000 -> 6000 -> 9000 RPM
/// Dump: 9000 -> 6000 -> 12000 RPM
///
/// Timing: notes 200ms-12s. +/-12% on speed matching.
pub struct SequenceDetector {
    state: SeqState,
    entered_ms: u64,
    mismatch_since_ms: u64,
    notes: [u16; 3],
}

impl View for SequenceDetector {
    type V = SequenceModel;

    closed spec fn view(&self) -> SequenceModel {
        SequenceModel {
            state: self.state,
            entered_ms: self.entered_ms,
            mismatch_since_ms: self.mismatch_since_ms,
            notes: self.notes,
        }
    }
}

impl Default for SequenceDetector {
    fn default() -> (d: Self)
        ensures
            d@.state == SeqState::Idle,
            d@.entered_ms == 0,
            d@.mismatch_since_ms == 0,
            d@.notes@ == seq![6000u16, 12000u16, 9000u16],
    {
        Self::new()
    }
}

impl SequenceDetector {
    /// The calibration sequence detector: 6000 -> 12000 -> 9000 RPM.
    pub fn new() -> (d: Self)
        ensures
            d@.state == SeqState::Idle,
            d@.entered_ms == 0,
            d@.mismatch_since_ms == 0,
            d@.notes@ == seq![6000u16, 12000u16, 9000u16],
    {
        Self::new_with_notes([6000, 12000, 9000])
    }

    /// A detector for the given three notes (RPM values).
    pub fn new_with_notes(notes: [u16; 3]) -> (d: Self)
        ensures
            d@.state == SeqState::Idle,
            d@.entered_ms == 0,
            d@.mismatch_since_ms == 0,
            d@.notes == notes,
    {
        SequenceDetector { state: SeqState::Idle, entered_ms: 0, mismatch_since_ms: 0, notes }
    }

    fn mismatch(&mut self, now_ms: u64)
        ensures
            final(self)@ == old(self)@.on_mismatch(now_ms),
    {
        if self.mismatch_since_ms == 0 {
            self.mismatch_since_ms = now_ms;
        }
        if now_ms.saturating_sub(self.mismatch_since_ms) > SEQ_TRANSITION_GRACE_MS {
            self.reset();
        }
    }

    fn note(&mut self, duty: u16, now_ms: u64, cur: u16, next: u16, to: SeqState)
        ensures
            final(self)@ == old(self)@.on_note(duty, now_ms, cur, next, to),
    {
        let elapsed = now_ms.saturating_sub(self.entered_ms);
        if elapsed > SEQ_NOTE_MAX_MS {
            self.reset();
        } else if elapsed >= SEQ_NOTE_MIN_MS && duty_matches_speed(duty, next) {
            self.state = to;
            self.entered_ms = now_ms;
            self.mismatch_since_ms = 0;
        } else if duty_matches_speed(duty, cur) || duty_matches_speed(duty, next) {
            self.mismatch_since_ms = 0;
        } else {
            self.mismatch(now_ms);
        }
    }

    /// Feed a duty reading. Returns `true` when the full sequence is detected.
    pub fn update(&mut self, duty: u16, now_ms: u64) -> (detected: bool)
        ensures
            (final(self)@, detected) == old(self)@.step(duty, now_ms),
    {
        let n0 = self.notes[0];
        let n1 = self.notes[1];
        let n2 = self.notes[2];
        match self.state {
            SeqState::Idle => {
                if duty_matches_speed(duty, n0) {
                    self.state = SeqState::NoteAOn;
                    self.entered_ms = now_ms;
                }
            },
            SeqState::NoteAOn => {
                self.note(duty, now_ms, n0, n1, SeqState::NoteBOn);
            },
            SeqState::NoteBOn => {
                self.note(duty, now_ms, n1, n2, SeqState::NoteCOn);
            },
            SeqState::NoteCOn => {
                let elapsed = now_ms.saturating_sub(self.entered_ms);
                if elapsed > SEQ_NOTE_MAX_MS {
                    self.reset();
                } else if elapsed >= SEQ_NOTE_MIN_MS && is_off(duty) {
                    self.reset();
                    return true;
                } else if duty_matches_speed(duty, n2) || is_off(duty) {
                    self.mismatch_since_ms = 0;
                } else {
                    self.mismatch(now_ms);
                }
            },
        }
        false
    }

    /// Returns `true` when the detector is partway through matching the sequence
    /// (i.e., past the Idle state).
    pub fn is_active(&self) -> (active: bool)
        ensures
            active == (self@.state != SeqState::Idle),
    {
        !matches!(self.state, SeqState::Idle)
    }

    fn reset(&mut self)
        ensures
            final(self)@ == old(self)@.reset(),
    {
        self.state = SeqState::Idle;
        self.entered_ms = 0;
        self.mismatch_since_ms = 0;
    }
}

/// The state that follows `s` in the note order.
pub open spec fn next_seq_state(s: SeqState) -> SeqState {
    match s {
        SeqState::Idle => SeqState::NoteAOn,
        SeqState::NoteAOn => SeqState::NoteBOn,
        SeqState::NoteBOn => SeqState::NoteCOn,
        SeqState::NoteCOn => SeqState::Idle,
    }
}

/// A reading never skips a note: the detector stays where it is, falls back
/// to Idle, or advances to the next note; advancing into a note state needs a
/// duty matching that note (after at least the minimum hold of the previous
/// note), and reporting a detection needs the OFF signal after note C was held
/// for the minimum time, after which the detector is idle again.
pub proof fn lemma_sequence_in_order(m: SequenceModel, duty: u16, now: u64)
    ensures
        ({
            let (n, detected) = m.step(duty, now);
            &&& n.state == m.state || n.state == SeqState::Idle || n.state == next_seq_state(m.state)
            &&& n.notes == m.notes
            &&& (n.state == SeqState::NoteAOn && m.state == SeqState::Idle) ==> matches_speed_spec(
                duty as int,
                m.notes@[0] as int,
            )
            &&& (n.state == SeqState::NoteBOn && m.state == SeqState::NoteAOn) ==> (
            matches_speed_spec(duty as int, m.notes@[1] as int) && elapsed_spec(now, m.entered_ms)
                >= SEQ_NOTE_MIN_MS)
            &&& (n.state == SeqState::NoteCOn && m.state == SeqState::NoteBOn) ==> (
            matches_speed_spec(duty as int, m.notes@[2] as int) && elapsed_spec(now, m.entered_ms)
                >= SEQ_NOTE_MIN_MS)
            &&& detected ==> (m.state == SeqState::NoteCOn && duty < OFF_THRESHOLD
                && SEQ_NOTE_MIN_MS <= elapsed_spec(now, m.entered_ms) <= SEQ_NOTE_MAX_MS
                && n.state == SeqState::Idle)
        }),
{
}

} // verus!
